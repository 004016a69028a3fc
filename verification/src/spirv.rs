//! Framing of SPIR-V modules: bytes to words, and the walk over instructions
//! that decides whether a module is handed to the reflector.
use vstd::prelude::*;

verus! {

/// Number of words in the header of a module.
pub const HEADER_WORDS: usize = 5;

/// First byte of a module stored least significant byte first.
pub const LITTLE_ENDIAN_MARK: u8 = 3;

/// First byte of a module stored most significant byte first.
pub const BIG_ENDIAN_MARK: u8 = 7;

/// Opcode of an operation on specialization constants.
pub const OP_SPEC_CONSTANT_OP: u32 = 52;

/// Opcode of a vector type declaration.
pub const OP_TYPE_VECTOR: u32 = 23;

/// Opcode of a matrix type declaration.
pub const OP_TYPE_MATRIX: u32 = 24;

/// Largest component count accepted in a vector or matrix type.
pub const MAX_COMPONENTS: u32 = 16;

/// Opcode of a decoration.
pub const OP_DECORATE: u32 = 71;

/// Opcode of a decoration of a member of a structure.
pub const OP_MEMBER_DECORATE: u32 = 72;

/// Largest offset or stride, in bytes, accepted in a decoration.
pub const MAX_LAYOUT_OPERAND: u32 = 0x100_0000;

/// Largest number of type declarations accepted in a module.
pub const MAX_TYPE_DECLARATIONS: usize = 512;

/// The word made of four bytes, least significant first.
pub open spec fn spec_word(b0: u8, b1: u8, b2: u8, b3: u8) -> u32 {
    (b0 as int + 256 * (b1 as int) + 65536 * (b2 as int) + 16777216 * (b3 as int)) as u32
}

/// The `i`-th word of `bytes`, in the byte order that the first byte marks.
pub open spec fn spec_word_at(bytes: Seq<u8>, i: int) -> u32 {
    if bytes[0] == LITTLE_ENDIAN_MARK {
        spec_word(bytes[4 * i], bytes[4 * i + 1], bytes[4 * i + 2], bytes[4 * i + 3])
    } else {
        spec_word(bytes[4 * i + 3], bytes[4 * i + 2], bytes[4 * i + 1], bytes[4 * i])
    }
}

/// The words of a module held in `bytes`: every full group of four bytes, in
/// the byte order that the first byte marks; no word at all where the first
/// byte marks neither order. Bytes after the last full group are left out.
pub open spec fn spec_module_words(bytes: Seq<u8>) -> Seq<u32> {
    if bytes.len() == 0 || (bytes[0] != LITTLE_ENDIAN_MARK && bytes[0] != BIG_ENDIAN_MARK) {
        Seq::empty()
    } else {
        Seq::new(bytes.len() / 4, |i: int| spec_word_at(bytes, i))
    }
}

/// The words of a module held in `bytes`.
pub fn module_words(bytes: &[u8]) -> (words: Vec<u32>)
    ensures
        words@ == spec_module_words(bytes@),
{
    let mut words: Vec<u32> = Vec::new();
    if bytes.len() == 0 {
        return words;
    }
    let little = bytes[0] == LITTLE_ENDIAN_MARK;
    if !little && bytes[0] != BIG_ENDIAN_MARK {
        return words;
    }
    let count: usize = bytes.len() / 4;
    let mut i: usize = 0;
    while i < count
        invariant
            i <= count,
            count == bytes.len() / 4,
            little == (bytes@[0] == LITTLE_ENDIAN_MARK),
            words@.len() == i,
            forall|k: int| 0 <= k < i ==> words@[k] == spec_word_at(bytes@, k),
        decreases count - i,
    {
        let b0: u32 = bytes[4 * i] as u32;
        let b1: u32 = bytes[4 * i + 1] as u32;
        let b2: u32 = bytes[4 * i + 2] as u32;
        let b3: u32 = bytes[4 * i + 3] as u32;
        let word: u32 = if little {
            b0 + 256 * b1 + 65536 * b2 + 16777216 * b3
        } else {
            b3 + 256 * b2 + 65536 * b1 + 16777216 * b0
        };
        words.push(word);
        i = i + 1;
    }
    assert(words@ =~= spec_module_words(bytes@));
    words
}

/// Number of words of the instruction whose first word is `head`.
pub open spec fn spec_word_count(head: u32) -> u32 {
    head >> 16
}

/// Opcode of the instruction whose first word is `head`.
pub open spec fn spec_opcode(head: u32) -> u32 {
    head & 0xFFFF
}

/// Whether `op` divides or takes a remainder.
pub open spec fn spec_is_division(op: u32) -> bool {
    op == 134 || op == 135 || op == 137 || op == 138 || op == 139
}

/// Whether `decoration` gives the place or the spacing of data: the stride of
/// an array, the stride of a matrix, or the offset of a member.
pub open spec fn spec_is_layout_decoration(decoration: u32) -> bool {
    decoration == 6 || decoration == 7 || decoration == 35
}

/// Whether `opcode` declares a type.
pub open spec fn spec_is_type_declaration(opcode: u32) -> bool {
    19 <= opcode <= 39
}

/// Whether the instruction of `len` words at `pos` is one that the reflector
/// can take: no division among specialization constants, no vector or
/// matrix type of more than `MAX_COMPONENTS` components, and no offset or
/// stride beyond `MAX_LAYOUT_OPERAND`.
pub open spec fn spec_instruction_accepted(words: Seq<u32>, pos: int, len: int) -> bool {
    let opcode = spec_opcode(words[pos]);
    &&& !(opcode == OP_SPEC_CONSTANT_OP && len >= 4 && spec_is_division(words[pos + 3]))
    &&& !((opcode == OP_TYPE_VECTOR || opcode == OP_TYPE_MATRIX) && len >= 4 && words[pos + 3]
        > MAX_COMPONENTS)
    &&& !(opcode == OP_DECORATE && len >= 4 && spec_is_layout_decoration(words[pos + 2])
        && words[pos + 3] > MAX_LAYOUT_OPERAND)
    &&& !(opcode == OP_MEMBER_DECORATE && len >= 5 && spec_is_layout_decoration(words[pos + 3])
        && words[pos + 4] > MAX_LAYOUT_OPERAND)
}

/// Whether the instructions from `pos` on are accepted, with room for
/// `types` more type declarations. The walk ends at the end of the words or
/// at an instruction that claims more words than are left; an instruction of
/// no words at all is refused, and so is a type declaration for which there
/// is no room.
pub open spec fn spec_accepted_from(words: Seq<u32>, pos: int, types: int) -> bool
    decreases words.len() - pos,
{
    if pos < 0 || pos >= words.len() {
        true
    } else {
        let len = spec_word_count(words[pos]) as int;
        if len > words.len() - pos {
            true
        } else if len == 0 {
            false
        } else if spec_is_type_declaration(spec_opcode(words[pos])) {
            types > 0 && spec_instruction_accepted(words, pos, len) && spec_accepted_from(
                words,
                pos + len,
                types - 1,
            )
        } else {
            spec_instruction_accepted(words, pos, len) && spec_accepted_from(
                words,
                pos + len,
                types,
            )
        }
    }
}

/// Whether a module is handed to the reflector: a module shorter than its
/// header holds no instruction and is accepted.
pub open spec fn spec_module_accepted(words: Seq<u32>) -> bool {
    words.len() < HEADER_WORDS || spec_accepted_from(
        words,
        HEADER_WORDS as int,
        MAX_TYPE_DECLARATIONS as int,
    )
}

/// Whether a module is handed to the reflector.
pub fn module_accepted(words: &[u32]) -> (accepted: bool)
    ensures
        accepted == spec_module_accepted(words@),
{
    if words.len() < HEADER_WORDS {
        return true;
    }
    let mut pos: usize = HEADER_WORDS;
    let mut types: usize = MAX_TYPE_DECLARATIONS;
    while pos < words.len()
        invariant
            HEADER_WORDS <= pos <= words.len(),
            spec_module_accepted(words@) == spec_accepted_from(words@, pos as int, types as int),
        decreases words.len() - pos,
    {
        let head: u32 = words[pos];
        let len: usize = (head >> 16) as usize;
        if len > words.len() - pos {
            return true;
        }
        if len == 0 {
            return false;
        }
        let opcode: u32 = head & 0xFFFF;
        if 19 <= opcode && opcode <= 39 {
            if types == 0 {
                return false;
            }
            types = types - 1;
        }
        if len >= 4 {
            let operand: u32 = words[pos + 3];
            if opcode == OP_SPEC_CONSTANT_OP && (operand == 134 || operand == 135 || operand == 137
                || operand == 138 || operand == 139) {
                return false;
            }
            if (opcode == OP_TYPE_VECTOR || opcode == OP_TYPE_MATRIX) && operand > MAX_COMPONENTS {
                return false;
            }
            let decoration: u32 = words[pos + 2];
            if opcode == OP_DECORATE && (decoration == 6 || decoration == 7 || decoration == 35)
                && operand > MAX_LAYOUT_OPERAND {
                return false;
            }
        }
        if len >= 5 {
            let decoration: u32 = words[pos + 3];
            if opcode == OP_MEMBER_DECORATE && (decoration == 6 || decoration == 7 || decoration
                == 35) && words[pos + 4] > MAX_LAYOUT_OPERAND {
                return false;
            }
        }
        pos = pos + len;
    }
    true
}

} // verus!
