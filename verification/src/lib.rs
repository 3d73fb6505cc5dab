//! Declarative scene-rendering resources: a render-target composer
//! ("canvas"), a lazily-loaded asset database (images, sprite atlases,
//! fonts), and a geometry importer.
//!
//! The GPU backend, the binary mesh decoder, the font rasterizer and the
//! file system are external collaborators: callers perform device
//! allocation, decoding and reading, and hand the results to this crate
//! as plain values.  Everything that composes, registers, caches and
//! looks up those values lives here and is verified.

pub mod canvas;
pub mod database;
pub mod error;
mod jsonval;
mod schema;
mod strcmp;
