//! Face-processing engine: camera enumeration, ONNX session planning,
//! model path resolution, and the state logic of the HTTP server.

pub mod capture;
pub mod error;
pub mod imaging;
pub mod launcher;
pub mod models;
pub mod onnx;
pub mod paths;
pub mod provider;
pub mod server;
