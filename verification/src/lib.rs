pub mod decode;
pub mod engine;
pub mod errors;
pub mod preprocess;
pub mod raster;
pub mod text;

pub use decode::prepare_canvas;
pub use engine::MonOcr;
pub use errors::OcrError;
pub use preprocess::{norm_value_scaled, preprocess, target_width};
pub use raster::Raster;
pub use text::join_recognized;
