# dlss_wgpu_dx12

NVIDIA DLSS for the D3D12 backend of wgpu: Super Resolution, Ray Reconstruction and Frame Generation.

* `src/` is the library, written in Verus. It decides: which quality tier and resolutions to ask for,
  what to hand to NGX and Streamline and in which order, what a reply means, and whether a library may
  be loaded. It calls no driver. What has to be called is returned as a value, and the reply is handed
  back; each function states in its contract what comes of it.
* `app/` makes the calls. It owns the wgpu objects, the D3D12 handles behind them, the NGX and
  Streamline entry points, the files and the environment of the process, and the logger. Floating point
  arithmetic is done here as well; the library carries single-precision values as bit patterns.
* `tests/` runs the library on concrete values.

The NGX bindings of `app/nvsdk_ngx.rs` are generated from the headers of the DLSS SDK when the crate is
built for Windows. `app/hal.rs` needs a wgpu-hal with the accessor of gfx-rs/wgpu#8888.
