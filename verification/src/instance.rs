//! A graphics instance that compiles the host application's own shaders with DXC.
//!
//! DLSS itself never needs DXC: its shaders are precompiled. This is a convenience for applications
//! that write shaders of Shader Model 6.0 or newer, and using it is optional. The dynamic compiler
//! has to be shipped as `dxcompiler.dll` next to the executable, or at the path passed here.

use vstd::prelude::*;

verus! {

/// Default file name of the dynamic DXC compiler library, which is then looked for on the standard
/// library search path.
pub const DEFAULT_DXC_PATH: &'static str = "dxcompiler.dll";

/// The bit of the D3D12 backend in `wgpu::Backends`.
pub const DX12_BACKEND: u32 = 8;

/// The options that a graphics instance is created from.
#[verifier::external_type_specification]
#[verifier::external_body]
pub struct ExInstanceDescriptor(wgpu::InstanceDescriptor);

/// The compiler of D3D12 shaders.
#[derive(Clone, Debug, PartialEq, Eq)]
pub enum ShaderCompiler {
    /// The old compiler, which needs no further library.
    Fxc,
    /// DXC from a dynamic library.
    DynamicDxc {
        /// The path to the library.
        dxc_path: String,
    },
    /// DXC as linked into the executable.
    StaticDxc,
    /// Whichever of them there is.
    Auto,
}

/// What a [`ShaderCompiler`] says.
pub enum ShaderCompilerView {
    Fxc,
    DynamicDxc(Seq<char>),
    StaticDxc,
    Auto,
}

impl View for ShaderCompiler {
    type V = ShaderCompilerView;

    open spec fn view(&self) -> ShaderCompilerView {
        match self {
            ShaderCompiler::Fxc => ShaderCompilerView::Fxc,
            ShaderCompiler::DynamicDxc { dxc_path } => ShaderCompilerView::DynamicDxc(dxc_path@),
            ShaderCompiler::StaticDxc => ShaderCompilerView::StaticDxc,
            ShaderCompiler::Auto => ShaderCompilerView::Auto,
        }
    }
}

/// The default instance options of wgpu without a display handle, with the backends of the given
/// bits and with the given compiler for D3D12.
pub uninterp spec fn descriptor_with(
    backends: u32,
    compiler: ShaderCompilerView,
) -> wgpu::InstanceDescriptor;

/// `wgpu::InstanceDescriptor::new_without_display_handle`, with the backends and the D3D12 shader
/// compiler replaced. Its other options are the ones that this build of wgpu defaults to, so the
/// outcome is a function of the arguments and is given a name.
#[verifier::external_body]
fn new_descriptor(backends: u32, compiler: ShaderCompiler) -> (r: wgpu::InstanceDescriptor)
    ensures
        r == descriptor_with(backends, compiler@),
{
    let mut descriptor = wgpu::InstanceDescriptor::new_without_display_handle();
    descriptor.backends = wgpu::Backends::from_bits_retain(backends);
    descriptor.backend_options.dx12.shader_compiler = match compiler {
        ShaderCompiler::Fxc => wgpu::Dx12Compiler::Fxc,
        ShaderCompiler::DynamicDxc { dxc_path } => wgpu::Dx12Compiler::DynamicDxc { dxc_path },
        ShaderCompiler::StaticDxc => wgpu::Dx12Compiler::StaticDxc,
        ShaderCompiler::Auto => wgpu::Dx12Compiler::Auto,
    };
    descriptor
}

/// Instance options for the D3D12 backend with the dynamic DXC compiler, looked for under its
/// default name. All other options are left at their defaults.
#[must_use]
pub fn dxc_instance_descriptor() -> (r: wgpu::InstanceDescriptor)
    ensures
        r == descriptor_with(DX12_BACKEND, ShaderCompilerView::DynamicDxc(DEFAULT_DXC_PATH@)),
{
    dxc_instance_descriptor_at(DEFAULT_DXC_PATH.to_string())
}

/// Like [`dxc_instance_descriptor`], with the path to the compiler: a bare file name, looked for on
/// the library search path, or an absolute or relative path.
#[must_use]
pub fn dxc_instance_descriptor_at(dxc_path: String) -> (r: wgpu::InstanceDescriptor)
    ensures
        r == descriptor_with(DX12_BACKEND, ShaderCompilerView::DynamicDxc(dxc_path@)),
{
    new_descriptor(DX12_BACKEND, ShaderCompiler::DynamicDxc { dxc_path })
}

} // verus!
