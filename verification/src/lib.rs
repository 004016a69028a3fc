//! Backend bridge between a render-graph scheduler and a GPU backend.
//!
//! The scheduler orders the work of a frame into batches of nodes and knows
//! nothing of any graphics interface. This library holds what lies between
//! the two: it derives binding layouts from shader bytecode, decides which
//! backend objects to allocate for graph resources and how views of them
//! are had, and says for each node which bindings it wires and how much work
//! it submits. It talks to no device: what the backend is to do comes back
//! as plain descriptions.
//!
//! - `spirv`, `reflector`, `shader`, `reflection`, `reflection_laws`: from
//!   bytecode to the layout entry of every binding slot.
//! - `binding`, `table`, `listing`, `pipelines`, `program`: binding tables,
//!   their merge, the layouts of a pipeline and the filtering of candidate
//!   bindings.
//! - `format`, `resource`, `view`: graph resources, their backend objects
//!   and the views of them.
//! - `dispatch`, `node_callbacks`, `builtin_callbacks`: the nodes of the
//!   graph.
//! - `driver`, `registration`: the frame loop and the binding of callbacks
//!   to nodes.
//! - `bindless_textures`, `container`, `texture_loading`, `model_loading`:
//!   what loading assets leaves behind.
pub mod bindless_textures;
pub mod binding;
pub mod builtin_callbacks;
pub mod container;
pub mod dispatch;
pub mod driver;
pub mod format;
pub mod listing;
pub mod model_loading;
pub mod node_callbacks;
pub mod pipelines;
pub mod program;
pub mod reflection;
pub mod reflection_laws;
pub mod reflector;
pub mod registration;
pub mod resource;
pub mod shader;
pub mod spirv;
pub mod table;
pub mod texture_loading;
pub mod view;
