pub mod ligth;
pub mod quad;

pub use ligth::{LigthLayer, LigthLayerModel};
pub use quad::QuadLayer;
