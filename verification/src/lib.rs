//! A binding-generation engine: given an inventory describing the exported
//! functions, types, constants and callback contracts of a native library,
//! it decides which declarations belong in the current output unit, which
//! types need custom marshalling glue at the foreign-function boundary, and
//! emits the scaffolding and declarations of one C# interop file.

pub mod config;
pub mod document;
pub mod emit;
pub mod errors;
pub mod front;
pub mod generate;
pub mod lang;
pub mod laws;
pub mod marshal;
pub mod naming;
pub mod render;
pub mod text;
pub mod writer;

pub use config::FunctionNameFlavor;
pub use config::Interop;
pub use config::InteropBuilder;
pub use config::NamespaceMappings;
pub use config::Visibility;
pub use config::WriteTypes;
