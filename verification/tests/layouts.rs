use render_bridge::binding::{
    BindGroupLayoutEntry, BindingType, BufferBindingType, SamplerBindingType, ShaderStages,
    TextureSampleType, TextureViewDimension,
};
use render_bridge::pipelines::{BindGroupEntry, BindGroupLayouts};
use std::collections::BTreeMap;

type Table = BTreeMap<u32, BTreeMap<u32, BindGroupLayoutEntry>>;

fn entry(binding: u32, ty: BindingType) -> BindGroupLayoutEntry {
    BindGroupLayoutEntry { binding, visibility: ShaderStages { bits: 4 }, ty, count: None }
}

fn image() -> BindingType {
    BindingType::Texture {
        sample_type: TextureSampleType::Float { filterable: true },
        view_dimension: TextureViewDimension::D2,
        multisampled: false,
    }
}

fn sampler() -> BindingType {
    BindingType::Sampler(SamplerBindingType::Filtering)
}

fn uniform() -> BindingType {
    BindingType::Buffer {
        ty: BufferBindingType::Uniform,
        has_dynamic_offset: false,
        min_binding_size: Some(16),
    }
}

fn image_and_sampler() -> Table {
    let mut slots = BTreeMap::new();
    slots.insert(0, entry(0, image()));
    slots.insert(1, entry(1, sampler()));
    let mut table = Table::new();
    table.insert(0, slots);
    table
}

fn slots_of(entries: &Vec<BindGroupEntry<&'static str>>) -> Vec<(u32, &'static str)> {
    entries.iter().map(|e| (e.binding, e.resource)).collect()
}

#[test]
fn binding_set_keeps_only_declared_slots() {
    let layouts = BindGroupLayouts::new(&image_and_sampler());
    let mut candidates = vec![
        BindGroupEntry { binding: 0, resource: "image" },
        BindGroupEntry { binding: 1, resource: "sampler" },
        BindGroupEntry { binding: 2, resource: "uniform-buffer" },
    ];
    assert!(layouts.has_set(0));
    layouts.create_bind_group(0, &mut candidates);
    assert_eq!(slots_of(&candidates), vec![(0, "image"), (1, "sampler")]);
}

#[test]
fn binding_set_keeps_order_and_repeats() {
    let layouts = BindGroupLayouts::new(&image_and_sampler());
    let mut candidates = vec![
        BindGroupEntry { binding: 7, resource: "a" },
        BindGroupEntry { binding: 1, resource: "b" },
        BindGroupEntry { binding: 9, resource: "c" },
        BindGroupEntry { binding: 0, resource: "d" },
        BindGroupEntry { binding: 1, resource: "e" },
        BindGroupEntry { binding: 3, resource: "f" },
    ];
    layouts.create_bind_group(0, &mut candidates);
    assert_eq!(slots_of(&candidates), vec![(1, "b"), (0, "d"), (1, "e")]);
}

#[test]
fn binding_set_of_no_candidates_is_empty() {
    let layouts = BindGroupLayouts::new(&image_and_sampler());
    let mut candidates: Vec<BindGroupEntry<&'static str>> = Vec::new();
    layouts.create_bind_group(0, &mut candidates);
    assert!(candidates.is_empty());
    let mut others = vec![BindGroupEntry { binding: 5, resource: "x" }];
    layouts.create_bind_group(0, &mut others);
    assert!(others.is_empty());
}

#[test]
fn layouts_are_listed_by_set_and_slot() {
    let mut table = Table::new();
    let mut two = BTreeMap::new();
    two.insert(4, entry(4, uniform()));
    two.insert(1, entry(1, sampler()));
    table.insert(2, two);
    let mut zero = BTreeMap::new();
    zero.insert(3, entry(3, image()));
    zero.insert(0, entry(0, image()));
    zero.insert(2, entry(2, sampler()));
    table.insert(0, zero);
    let layouts = BindGroupLayouts::new(&table);
    let listed = layouts.layouts();
    assert_eq!(listed.len(), 2);
    assert_eq!(listed.keys().copied().collect::<Vec<u32>>(), vec![0, 2]);
    let slots: Vec<u32> = listed[&0].entries.iter().map(|e| e.binding).collect();
    assert_eq!(slots, vec![0, 2, 3]);
    assert_eq!(listed[&2].entries, vec![entry(1, sampler()), entry(4, uniform())]);
    let mut ids: Vec<u32> = listed[&0].binding_ids.iter().copied().collect();
    ids.sort();
    assert_eq!(ids, vec![0, 2, 3]);
    assert_eq!(listed[&2].binding_ids.len(), 2);
}

#[test]
fn layouts_answer_what_they_declare() {
    let layouts = BindGroupLayouts::new(&image_and_sampler());
    assert!(layouts.has_set(0));
    assert!(!layouts.has_set(1));
    assert!(layouts.declares(0, 0));
    assert!(layouts.declares(0, 1));
    assert!(!layouts.declares(0, 2));
    assert!(!layouts.declares(1, 0));
    let none = BindGroupLayouts::new(&Table::new());
    assert!(none.layouts().is_empty());
    assert!(!none.has_set(0));
}

#[test]
fn slot_ids_are_those_of_the_entries() {
    let mut slots = BTreeMap::new();
    slots.insert(5, entry(9, image()));
    let mut table = Table::new();
    table.insert(0, slots);
    let layouts = BindGroupLayouts::new(&table);
    assert!(layouts.declares(0, 9));
    assert!(!layouts.declares(0, 5));
}
