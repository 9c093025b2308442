//! The boundary to the graphics API.
//!
//! What stands here is believed, not proved, but for [`Gpu`], whose few
//! functions are verified. The GPU handle types are opaque to the verifier,
//! and each other executable function is one call into `wgpu`, or for the
//! uniform bytes into `bytemuck`, whose body is not checked. None of the GPU calls promises anything about the handle it
//! returns, because what a device accepts depends on the driver.
//!
//! Errors that a GPU call raises are delivered to the innermost open
//! [`ValidationScope`] when they are validation errors, and no call that
//! can raise one can be made without such a scope in hand. Out-of-memory
//! and internal errors `wgpu` hands to the device's uncaptured-error
//! handler.

use vstd::prelude::*;

verus! {

/// `wgpu::Adapter`, opaque.
#[verifier::external_type_specification]
#[verifier::external_body]
pub struct ExAdapter(wgpu::Adapter);

/// `wgpu::Limits`, opaque.
#[verifier::external_type_specification]
#[verifier::external_body]
pub struct ExLimits(wgpu::Limits);

/// `wgpu::Device`, opaque.
#[verifier::external_type_specification]
#[verifier::external_body]
pub struct ExDevice(wgpu::Device);

/// `wgpu::Queue`, opaque.
#[verifier::external_type_specification]
#[verifier::external_body]
pub struct ExQueue(wgpu::Queue);

/// `wgpu::TextureFormat`, opaque.
#[verifier::external_type_specification]
#[verifier::external_body]
pub struct ExTextureFormat(wgpu::TextureFormat);

/// `wgpu::TextureView`, opaque.
#[verifier::external_type_specification]
#[verifier::external_body]
pub struct ExTextureView(wgpu::TextureView);

/// `wgpu::BindGroupLayout`, opaque.
#[verifier::external_type_specification]
#[verifier::external_body]
pub struct ExBindGroupLayout(wgpu::BindGroupLayout);

/// `wgpu::Buffer`, opaque.
#[verifier::external_type_specification]
#[verifier::external_body]
pub struct ExBuffer(wgpu::Buffer);

/// `wgpu::BindGroup`, opaque.
#[verifier::external_type_specification]
#[verifier::external_body]
pub struct ExBindGroup(wgpu::BindGroup);

/// `wgpu::ShaderModule`, opaque.
#[verifier::external_type_specification]
#[verifier::external_body]
pub struct ExShaderModule(wgpu::ShaderModule);

/// `wgpu::PipelineLayout`, opaque.
#[verifier::external_type_specification]
#[verifier::external_body]
pub struct ExPipelineLayout(wgpu::PipelineLayout);

/// `wgpu::RenderPipeline`, opaque.
#[verifier::external_type_specification]
#[verifier::external_body]
pub struct ExRenderPipeline(wgpu::RenderPipeline);

/// `wgpu::CommandEncoder`, opaque.
#[verifier::external_type_specification]
#[verifier::external_body]
pub struct ExCommandEncoder(wgpu::CommandEncoder);

/// `wgpu::RenderPass`, opaque.
#[verifier::external_type_specification]
#[verifier::external_body]
pub struct ExRenderPass<'a>(wgpu::RenderPass<'a>);

/// `wgpu::CommandBuffer`, opaque.
#[verifier::external_type_specification]
#[verifier::external_body]
pub struct ExCommandBuffer(wgpu::CommandBuffer);

/// `wgpu::ColorTargetState`, opaque.
#[verifier::external_type_specification]
#[verifier::external_body]
pub struct ExColorTargetState(wgpu::ColorTargetState);

/// `wgpu::PrimitiveState`, opaque.
#[verifier::external_type_specification]
#[verifier::external_body]
pub struct ExPrimitiveState(wgpu::PrimitiveState);

/// `wgpu::MultisampleState`, opaque.
#[verifier::external_type_specification]
#[verifier::external_body]
pub struct ExMultisampleState(wgpu::MultisampleState);

/// `wgpu::Error`, opaque.
#[verifier::external_type_specification]
#[verifier::external_body]
pub struct ExError(wgpu::Error);

/// The bytes of a 32-bit word, least significant first.
pub open spec fn little_endian(word: u32) -> Seq<u8> {
    seq![
        (word % 256) as u8,
        (word / 256 % 256) as u8,
        (word / 65536 % 256) as u8,
        (word / 16777216) as u8,
    ]
}

/// The bytes of `words` laid end to end, each word least significant byte
/// first, or most significant first when `reversed`.
pub open spec fn packed(words: Seq<u32>, reversed: bool) -> Seq<u8> {
    Seq::new(
        4 * words.len(),
        |i: int| little_endian(words[i / 4])[if reversed { 3 - i % 4 } else { i % 4 }],
    )
}

/// `bytemuck::cast_slice` from `u32` to `u8`: the same memory seen as
/// bytes, so four bytes per word in the byte order of the machine, which is
/// one of the two orders for the whole slice. The cast cannot fail, since a
/// byte has size and alignment one.
#[verifier::external_body]
pub(crate) fn words_as_bytes(words: &[u32]) -> (bytes: &[u8])
    ensures
        bytes@ == packed(words@, false) || bytes@ == packed(words@, true),
{
    bytemuck::cast_slice(words)
}

/// `wgpu::Adapter::request_device`, awaited to completion with
/// `pollster::block_on`, for a device without optional features and with
/// `required_limits`: the device and the queue that belongs to it, or
/// nothing if the adapter refused. Every refusal comes back from `wgpu` as
/// an error value, limits that the adapter cannot meet among them.
#[verifier::external_body]
fn request_device(adapter: &wgpu::Adapter, required_limits: wgpu::Limits) -> (pair: Option<
    (wgpu::Device, wgpu::Queue),
>) {
    let descriptor = wgpu::DeviceDescriptor { required_limits, ..Default::default() };
    pollster::block_on(adapter.request_device(&descriptor)).ok()
}

/// `wgpu::Device::noop`: a device that accepts and validates every call but
/// draws nothing, and the queue that belongs to it.
#[verifier::external_body]
fn noop_device() -> (pair: (wgpu::Device, wgpu::Queue)) {
    wgpu::Device::noop(&wgpu::DeviceDescriptor::default())
}

/// A device together with its own queue.
///
/// The two are only ever put together as `wgpu` handed them out, so what is
/// written or submitted through the queue reports its errors where the
/// device collects them.
pub struct Gpu {
    device: wgpu::Device,
    queue: wgpu::Queue,
}

impl Gpu {
    /// The device and the queue, as handed out together.
    pub closed spec fn handles(&self) -> (wgpu::Device, wgpu::Queue) {
        (self.device, self.queue)
    }

    /// Asks `adapter` for a device with `required_limits` and no optional
    /// features. Whether it grants one is for the adapter to say.
    pub fn request(adapter: &wgpu::Adapter, required_limits: wgpu::Limits) -> (gpu: Option<Gpu>) {
        match request_device(adapter, required_limits) {
            Some((device, queue)) => Some(Gpu { device, queue }),
            None => None,
        }
    }

    /// A device that validates every call but draws nothing, for use where
    /// there is no graphics hardware.
    pub fn noop() -> (gpu: Gpu) {
        let (device, queue) = noop_device();
        Gpu { device, queue }
    }

    /// The device.
    pub fn device(&self) -> (device: &wgpu::Device)
        ensures
            *device == self.handles().0,
    {
        &self.device
    }

    /// The queue of the device.
    pub fn queue(&self) -> (queue: &wgpu::Queue)
        ensures
            *queue == self.handles().1,
    {
        &self.queue
    }
}

/// An open validation-capture region on a device.
///
/// The only way to obtain one is [`open_validation_scope`], and closing
/// consumes it, so a close can never meet an empty scope stack. Every call
/// below that can raise a GPU error asks for one. Those that act on the
/// device or on its queue reach them through the scope, so that their
/// errors go to the very sink on which the region is open. Those that act
/// on an encoder or a pass take the scope as the witness that a region is
/// open; encoders are only made through a scope.
pub(crate) struct ValidationScope<'a> {
    gpu: &'a Gpu,
}

/// `wgpu::Device::push_error_scope` with `wgpu::ErrorFilter::Validation`:
/// opens a region in which validation errors are collected instead of being
/// handed to the uncaptured-error handler.
#[verifier::external_body]
pub(crate) fn open_validation_scope<'a>(gpu: &'a Gpu) -> (scope: ValidationScope<'a>) {
    gpu.device.push_error_scope(wgpu::ErrorFilter::Validation);
    ValidationScope { gpu }
}

/// `wgpu::Device::pop_error_scope`, awaited to completion with
/// `pollster::block_on`: closes the region and yields the first error it
/// collected, if any.
#[verifier::external_body]
pub(crate) fn close_validation_scope(scope: ValidationScope<'_>) -> (fault: Option<wgpu::Error>) {
    pollster::block_on(scope.gpu.device.pop_error_scope())
}

/// The `Display` text of a `wgpu::Error`.
#[verifier::external_body]
pub(crate) fn error_text(error: &wgpu::Error) -> (text: String) {
    error.to_string()
}

/// `wgpu::Device::create_bind_group_layout` for a single uniform buffer that
/// the fragment stage reads at `binding`.
#[verifier::external_body]
pub(crate) fn create_uniform_layout(scope: &ValidationScope<'_>, binding: u32) -> (layout:
    wgpu::BindGroupLayout) {
    let ty = wgpu::BufferBindingType::Uniform;
    let ty = wgpu::BindingType::Buffer { ty, has_dynamic_offset: false, min_binding_size: None };
    let visibility = wgpu::ShaderStages::FRAGMENT;
    scope.gpu.device.create_bind_group_layout(&wgpu::BindGroupLayoutDescriptor {
        label: Some("Binding Group Layout"),
        entries: &[wgpu::BindGroupLayoutEntry { binding, visibility, ty, count: None }],
    })
}

/// `wgpu::Device::create_buffer` for a uniform buffer of `size` bytes that
/// is filled through the queue.
#[verifier::external_body]
pub(crate) fn create_uniform_buffer(scope: &ValidationScope<'_>, size: u64) -> (buffer: wgpu::Buffer) {
    let usage = wgpu::BufferUsages::UNIFORM | wgpu::BufferUsages::COPY_DST;
    let label = Some("Viewport Info Buffer");
    scope.gpu.device.create_buffer(&wgpu::BufferDescriptor { label, size, usage, mapped_at_creation: false })
}

/// `wgpu::Device::create_bind_group` binding the whole of `buffer` at
/// `binding` under `layout`.
#[verifier::external_body]
pub(crate) fn create_uniform_binding(
    scope: &ValidationScope<'_>,
    layout: &wgpu::BindGroupLayout,
    binding: u32,
    buffer: &wgpu::Buffer,
) -> (group: wgpu::BindGroup) {
    let resource = buffer.as_entire_binding();
    scope.gpu.device.create_bind_group(&wgpu::BindGroupDescriptor {
        label: Some("Binding Group"),
        layout,
        entries: &[wgpu::BindGroupEntry { binding, resource }],
    })
}

/// `wgpu::Device::create_pipeline_layout` with `uniforms` as its only bind
/// group and no push constants.
#[verifier::external_body]
pub(crate) fn create_pipeline_layout(scope: &ValidationScope<'_>, uniforms: &wgpu::BindGroupLayout) -> (layout:
    wgpu::PipelineLayout) {
    scope.gpu.device.create_pipeline_layout(&wgpu::PipelineLayoutDescriptor {
        label: Some("Pipeline Layout"),
        bind_group_layouts: &[uniforms],
        push_constant_ranges: &[],
    })
}

/// `wgpu::Device::create_shader_module` on WGSL `source`. Parsing is
/// recursive: `wgpu` bounds the depth and reports source nested beyond it as
/// an error, but warns that a thread with a small stack may run out of it
/// before that bound is reached.
#[verifier::external_body]
pub(crate) fn create_wgsl_module(scope: &ValidationScope<'_>, label: &str, source: &str) -> (module:
    wgpu::ShaderModule) {
    scope.gpu.device.create_shader_module(wgpu::ShaderModuleDescriptor {
        label: Some(label),
        source: wgpu::ShaderSource::Wgsl(source.into()),
    })
}

/// The `wgpu::ColorTargetState` that writes every channel of a target of
/// `format`, replacing what was there.
#[verifier::external_body]
pub(crate) fn replace_target(format: wgpu::TextureFormat) -> (target: wgpu::ColorTargetState) {
    let blend = Some(wgpu::BlendState::REPLACE);
    wgpu::ColorTargetState { format, blend, write_mask: wgpu::ColorWrites::ALL }
}

/// The `wgpu::PrimitiveState` of a filled triangle strip: the default state
/// but for the topology.
#[verifier::external_body]
pub(crate) fn strip_primitive() -> (primitive: wgpu::PrimitiveState) {
    wgpu::PrimitiveState { topology: wgpu::PrimitiveTopology::TriangleStrip, ..Default::default() }
}

/// The `wgpu::MultisampleState` with `samples` samples per pixel, all of
/// them enabled, and no alpha-to-coverage.
#[verifier::external_body]
pub(crate) fn multisample(samples: u32) -> (state: wgpu::MultisampleState) {
    wgpu::MultisampleState { count: samples, ..Default::default() }
}

/// `wgpu::Device::create_render_pipeline` without vertex buffers, depth or
/// stencil: `vertex` and `fragment` each give a module and the name of its
/// entry point, and the fragment stage writes the single colour `target`.
#[verifier::external_body]
pub(crate) fn create_pipeline(
    scope: &ValidationScope<'_>,
    layout: &wgpu::PipelineLayout,
    vertex: (&wgpu::ShaderModule, &str),
    fragment: (&wgpu::ShaderModule, &str),
    target: wgpu::ColorTargetState,
    primitive: wgpu::PrimitiveState,
    multisample: wgpu::MultisampleState,
) -> (pipeline: wgpu::RenderPipeline) {
    let (targets, compilation_options) = ([Some(target)], Default::default());
    let (module, entry_point) = (vertex.0, Some(vertex.1));
    let vertex = wgpu::VertexState { module, entry_point, buffers: &[], compilation_options };
    let (module, entry_point, compilation_options) = (fragment.0, Some(fragment.1), Default::default());
    let fragment = Some(wgpu::FragmentState { module, entry_point, targets: &targets, compilation_options });
    let (label, layout, depth_stencil) = (Some("Render Pipeline"), Some(layout), None);
    scope.gpu.device.create_render_pipeline(&wgpu::RenderPipelineDescriptor {
        label, layout, vertex, fragment, primitive, depth_stencil, multisample, multiview: None, cache: None,
    })
}

/// `wgpu::Queue::write_buffer` at offset 0, through the queue of `scope`.
#[verifier::external_body]
pub(crate) fn write_buffer(scope: &ValidationScope<'_>, buffer: &wgpu::Buffer, data: &[u8]) {
    scope.gpu.queue.write_buffer(buffer, 0, data);
}

/// `wgpu::Device::create_command_encoder` on the device of `scope`.
#[verifier::external_body]
pub(crate) fn create_encoder(scope: &ValidationScope<'_>) -> (encoder: wgpu::CommandEncoder) {
    scope.gpu.device.create_command_encoder(&wgpu::CommandEncoderDescriptor { label: Some("Render Encoder") })
}

/// `wgpu::CommandEncoder::begin_render_pass` with one colour attachment:
/// `target` is cleared to black, drawn into and resolved into `resolve`.
/// The pass is detached from the encoder's borrow with
/// `wgpu::RenderPass::forget_lifetime`; it has to be ended before the
/// encoder is finished. Made while `_scope` is open.
#[verifier::external_body]
pub(crate) fn begin_pass(
    _scope: &ValidationScope<'_>,
    encoder: &mut wgpu::CommandEncoder,
    target: &wgpu::TextureView,
    resolve: &wgpu::TextureView,
) -> (pass: wgpu::RenderPass<'static>) {
    let load = wgpu::LoadOp::Clear(wgpu::Color::BLACK);
    let ops = wgpu::Operations { load, store: wgpu::StoreOp::Store };
    let attachment = wgpu::RenderPassColorAttachment { view: target, resolve_target: Some(resolve), ops };
    let pass = encoder.begin_render_pass(&wgpu::RenderPassDescriptor {
        label: Some("Render Pass"),
        color_attachments: &[Some(attachment)],
        depth_stencil_attachment: None,
        timestamp_writes: None,
        occlusion_query_set: None,
    });
    pass.forget_lifetime()
}

/// `wgpu::RenderPass::set_pipeline`, made while `_scope` is open.
#[verifier::external_body]
pub(crate) fn set_pipeline(
    _scope: &ValidationScope<'_>,
    pass: &mut wgpu::RenderPass<'static>,
    pipeline: &wgpu::RenderPipeline,
) {
    pass.set_pipeline(pipeline);
}

/// `wgpu::RenderPass::set_bind_group` without dynamic offsets, made while
/// `_scope` is open.
#[verifier::external_body]
pub(crate) fn set_bind_group(
    _scope: &ValidationScope<'_>,
    pass: &mut wgpu::RenderPass<'static>,
    index: u32,
    group: &wgpu::BindGroup,
) {
    pass.set_bind_group(index, group, &[]);
}

/// `wgpu::RenderPass::draw` of one instance of the first `vertices`
/// vertices, made while `_scope` is open.
#[verifier::external_body]
pub(crate) fn draw(_scope: &ValidationScope<'_>, pass: &mut wgpu::RenderPass<'static>, vertices: u32) {
    pass.draw(0..vertices, 0..1);
}

/// Ends the pass by dropping it, which is how `wgpu` records its end, while
/// `_scope` is open.
#[verifier::external_body]
pub(crate) fn end_pass(_scope: &ValidationScope<'_>, pass: wgpu::RenderPass<'static>) {
    drop(pass);
}

/// `wgpu::CommandEncoder::finish`, made while `_scope` is open.
#[verifier::external_body]
pub(crate) fn finish(_scope: &ValidationScope<'_>, encoder: wgpu::CommandEncoder) -> (commands:
    wgpu::CommandBuffer) {
    encoder.finish()
}

/// `wgpu::Queue::submit` of one command buffer, through the queue of
/// `scope`.
#[verifier::external_body]
pub(crate) fn submit(scope: &ValidationScope<'_>, commands: wgpu::CommandBuffer) {
    scope.gpu.queue.submit(std::iter::once(commands));
}

} // verus!
