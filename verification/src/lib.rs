//! A small GPU drawing layer built around a verified command model.
//!
//! The heart of the crate is the `Brush`/`Binder` pipeline-caching system:
//! a `Brush` owns a shader and a set of resource bindings, tracks whether its
//! cached pipeline still reflects those bindings (the dirty flag), and
//! rebuilds the pipeline exactly when needed.  Every GPU-visible effect is
//! recorded as a plain-data operation in a journal (`GpuCtx`), which an
//! unverified executor replays against a real graphics device.

pub mod binders;
pub mod blend;
pub mod brush;
pub mod buffers;
pub mod color;
pub mod err;
pub mod gpu_buffer;
pub mod gpuctx;
pub mod input_layout;
pub mod laws;
pub mod render_pass;
pub mod sampler;
pub mod shapes;
pub mod texture;
pub mod uniforms;
pub mod window;

pub use binders::{BindAsset, Binder, ToBinder};
pub use blend::{AlphaBlend, ColorBlend};
pub use brush::{Brush, BrushDesc};
pub use buffers::{InstanceBuffer, InstanceBufferBuilder, VertexBuffer, VertexBufferBuilder};
pub use color::Color;
pub use err::LErr;
pub use gpu_buffer::{BufferUsages, GpuBuffer, ToGpuBuf};
pub use gpuctx::{GpuCtx, GpuOp};
pub use input_layout::{GpuDataLayout, InputLayout, InputLayoutGroup, InputType};
pub use render_pass::{RenderOptions, RenderPass, RenderPassBuilder};
pub use sampler::Sampler;
pub use shapes::{Asset, Painter, Palette, Shape};
pub use texture::{Texture, TextureDesc, TextureSize, TextureUsage};
pub use uniforms::{Uniform, UniformBuffer};
pub use window::WindowSettings;
