//! The renderer: a full-screen quad shaded by a fragment program that can be
//! replaced while frames keep being drawn.
//!
//! Everything but the fragment program is fixed when the renderer is made.
//! New source text goes through [`Renderer::update_fragment`], which builds
//! a program under validation capture and stages it as the candidate, and
//! through [`Renderer::try_render`], which draws one frame with the
//! candidate under capture and promotes it only if that draw raised no
//! error. [`Renderer::submit_new_source`] does both. Ordinary frames,
//! [`Renderer::render`], are always drawn with the active program.

use crate::gpu::backend::{
    begin_pass, close_validation_scope, create_encoder, create_pipeline, create_pipeline_layout,
    create_uniform_binding, create_uniform_buffer, create_uniform_layout, create_wgsl_module, draw,
    end_pass, error_text, finish, multisample, open_validation_scope, packed, replace_target,
    set_bind_group, set_pipeline, strip_primitive, submit, words_as_bytes, write_buffer, Gpu,
    ValidationScope,
};
use crate::swap::{HotSwap, Slots};
use std::sync::Arc;
use vstd::prelude::*;
use vstd::slice::slice_to_vec;

verus! {

/// Samples per pixel of the pipeline, and so of the target it draws into.
pub const SAMPLE_COUNT: u32 = 4;

/// Vertices of the triangle strip that covers the surface.
pub const QUAD_VERTICES: u32 = 4;

/// Bind group that carries the viewport uniform.
pub const UNIFORM_GROUP: u32 = 0;

/// Binding of the viewport uniform within its group.
pub const UNIFORM_BINDING: u32 = 0;

/// Size in bytes of the viewport uniform.
pub const UNIFORM_SIZE: u64 = 16;

/// Bit pattern of the width the uniform holds before the first frame, 800.
pub const INITIAL_WIDTH: u32 = 0x4448_0000;

/// Bit pattern of the height the uniform holds before the first frame, 600.
pub const INITIAL_HEIGHT: u32 = 0x4416_0000;

/// Entry point of the vertex stage.
pub const VERTEX_ENTRY: &'static str = "vs_main";

/// Entry point every fragment source has to define.
pub const FRAGMENT_ENTRY: &'static str = "fs_main";

/// The fixed vertex stage: four corners of the surface as a triangle strip.
pub const VERTEX_SHADER: &'static str = "@vertex
fn vs_main(@builtin(vertex_index) index: u32) -> @builtin(position) vec4<f32> {
    let x = f32(index & 1u) * 2.0 - 1.0;
    let y = f32((index >> 1u) & 1u) * 2.0 - 1.0;
    return vec4<f32>(x, y, 0.0, 1.0);
}
";

/// What a fragment program is told about the frame it shades.
///
/// The shader reads four 32-bit floats. They are kept here as their bit
/// patterns, which is all that is ever done with them: they are copied into
/// the uniform buffer unchanged.
#[derive(Clone, Copy, Debug)]
pub struct ViewportInfo {
    /// Width and height of the surface.
    pub size: [u32; 2],
    /// Seconds since the program started.
    pub time_from_start_up: u32,
    /// Seconds since the last reload that succeeded.
    pub time_from_update: u32,
}

impl ViewportInfo {
    /// The four words in the order the shader declares them.
    pub open spec fn words(self) -> Seq<u32> {
        seq![self.size[0], self.size[1], self.time_from_start_up, self.time_from_update]
    }

    /// The value the uniform buffer is created with.
    pub fn initial() -> (info: ViewportInfo)
        ensures
            info.words() == seq![INITIAL_WIDTH, INITIAL_HEIGHT, 0u32, 0u32],
    {
        ViewportInfo {
            size: [INITIAL_WIDTH, INITIAL_HEIGHT],
            time_from_start_up: 0,
            time_from_update: 0,
        }
    }

    /// The contents of the uniform buffer for this value: its four words in
    /// order, each in the byte order of the machine.
    pub fn to_bytes(&self) -> (bytes: Vec<u8>)
        ensures
            bytes@.len() == UNIFORM_SIZE,
            bytes@ == packed(self.words(), false) || bytes@ == packed(self.words(), true),
    {
        let words: [u32; 4] = [
            self.size[0],
            self.size[1],
            self.time_from_start_up,
            self.time_from_update,
        ];
        assert(words@ == self.words());
        slice_to_vec(words_as_bytes(words.as_slice()))
    }
}

/// A compiled fragment program: the text it was built from, its shader
/// module and the pipeline that binds it. Programs are never changed once
/// built; a reload builds a new one.
pub struct Program {
    /// The source text.
    pub source: String,
    /// The module compiled from `source`.
    pub module: wgpu::ShaderModule,
    /// The pipeline whose fragment stage is `module`.
    pub pipeline: wgpu::RenderPipeline,
}

/// What one frame was drawn from: the record that a draw hands back, made
/// from the very values it bound and wrote.
#[derive(Debug)]
pub struct Drawn {
    /// The source text of the program whose pipeline was bound.
    pub source: String,
    /// The bytes written over the whole uniform buffer.
    pub uniform: Vec<u8>,
}

/// Why a build or a draw was rejected.
#[derive(Debug)]
pub struct ValidationError {
    /// The report of the graphics API, for a person to read.
    pub message: String,
}

/// How a submission of new source text ended.
#[derive(Debug)]
pub enum ReloadOutcome {
    /// The new program was built, drew a frame and is now active.
    Success,
    /// Validation rejected the source or its first draw; the active program
    /// is the one it was. Carries the report.
    Failure(String),
}

impl ReloadOutcome {
    /// The outcome of a submission whose last stage, the build if it was
    /// rejected and else the first draw, ended in `stage`: success if that
    /// stage passed, and else a failure that carries its report.
    pub fn of(stage: Result<(), ValidationError>) -> (outcome: ReloadOutcome)
        ensures
            match stage {
                Ok(()) => outcome is Success,
                Err(rejected) => outcome == ReloadOutcome::Failure(rejected.message),
            },
    {
        match stage {
            Ok(()) => ReloadOutcome::Success,
            Err(rejected) => ReloadOutcome::Failure(rejected.message),
        }
    }

    /// Whether this is [`ReloadOutcome::Success`].
    pub fn is_success(&self) -> (yes: bool)
        ensures
            yes == (*self is Success),
    {
        match self {
            ReloadOutcome::Success => true,
            ReloadOutcome::Failure(_) => false,
        }
    }
}

/// A uniform buffer together with the size it was created with, so that
/// every write can be held to cover the whole of it.
struct UniformBuffer {
    buffer: wgpu::Buffer,
    size: u64,
}

impl UniformBuffer {
    /// Creates a buffer of `size` bytes on the device of `scope`.
    fn new(scope: &ValidationScope<'_>, size: u64) -> (made: UniformBuffer)
        ensures
            made.size == size,
    {
        UniformBuffer { buffer: create_uniform_buffer(scope, size), size }
    }

    /// Replaces the whole contents by `contents`: no partial update is
    /// possible.
    fn overwrite(&self, scope: &ValidationScope<'_>, contents: &[u8])
        requires
            contents@.len() == self.size,
    {
        write_buffer(scope, &self.buffer, contents);
    }
}

/// The GPU objects that are made once and that no reload touches.
pub struct FixedParts {
    surface_format: wgpu::TextureFormat,
    binding_group_layout: wgpu::BindGroupLayout,
    viewport_info_buffer: UniformBuffer,
    binding_group: wgpu::BindGroup,
    v_shader: wgpu::ShaderModule,
    pipeline_layout: wgpu::PipelineLayout,
}

impl FixedParts {
    /// The uniform buffer holds exactly one [`ViewportInfo`].
    #[verifier::type_invariant]
    spec fn uniform_fits(self) -> bool {
        self.viewport_info_buffer.size == UNIFORM_SIZE
    }

    /// Creates the objects for a surface of `surface_format`, which is the
    /// format every pipeline of this renderer will be built for. The
    /// uniform buffer is made to hold exactly one [`ViewportInfo`] and
    /// starts out holding [`ViewportInfo::initial`].
    fn create(scope: &ValidationScope<'_>, surface_format: wgpu::TextureFormat) -> (fixed: FixedParts)
        ensures
            fixed.surface_format == surface_format,
            fixed.viewport_info_buffer.size == UNIFORM_SIZE,
    {
        let binding_group_layout = create_uniform_layout(scope, UNIFORM_BINDING);
        let viewport_info_buffer = UniformBuffer::new(scope, UNIFORM_SIZE);
        let contents = ViewportInfo::initial().to_bytes();
        viewport_info_buffer.overwrite(scope, contents.as_slice());
        let binding_group = create_uniform_binding(
            scope,
            &binding_group_layout,
            UNIFORM_BINDING,
            &viewport_info_buffer.buffer,
        );
        let pipeline_layout = create_pipeline_layout(scope, &binding_group_layout);
        let v_shader = create_wgsl_module(scope, "Vertex Shader", VERTEX_SHADER);
        FixedParts {
            surface_format,
            binding_group_layout,
            viewport_info_buffer,
            binding_group,
            v_shader,
            pipeline_layout,
        }
    }
}

/// Renders the quad and owns the programs it swaps between.
///
/// The renderer keeps hold of the device and queue it was made with and
/// makes every call through them, so that all its objects belong to one
/// device. The views a frame is drawn into come from the caller; they have
/// to be views of textures of that same device.
pub struct Renderer {
    gpu: Arc<Gpu>,
    fixed: FixedParts,
    programs: HotSwap<Program>,
}

impl View for Renderer {
    type V = Slots<Program>;

    closed spec fn view(&self) -> Slots<Program> {
        self.programs@
    }
}

/// The library's own error for a report of the graphics API: it carries
/// that report as its message.
fn rejection(report: String) -> (rejected: ValidationError)
    ensures
        rejected == (ValidationError { message: report }),
{
    ValidationError { message: report }
}

/// What a capture region amounts to once it is closed, given what was made
/// inside it and the report of the first error it collected, if any: with
/// no report, what was made; with one, the rejection that carries it, and
/// what was made is dropped.
pub fn captured<T>(made: T, report: Option<String>) -> (outcome: Result<T, ValidationError>)
    ensures
        match report {
            None => outcome == Ok::<T, ValidationError>(made),
            Some(text) => outcome == Err::<T, ValidationError>(ValidationError { message: text }),
        },
{
    match report {
        None => Ok(made),
        Some(text) => Err(rejection(text)),
    }
}

/// Runs `work` inside a validation-capture region on the device of `gpu`:
/// the region is opened, `work` runs with the open region in hand, the
/// region is closed, and [`captured`] decides from what the region
/// collected. Whether it collected an error is for the graphics API to
/// say; what is handed on in case it did not is what `work` made.
fn with_validation_error_handling<T, F: FnOnce(&ValidationScope) -> T>(
    gpu: &Gpu,
    work: F,
) -> (outcome: Result<T, ValidationError>)
    requires
        forall|scope: &ValidationScope| work.requires((scope,)),
    ensures
        outcome matches Ok(value) ==> exists|scope: &ValidationScope| work.ensures((scope,), value),
{
    let scope = open_validation_scope(gpu);
    let made = work(&scope);
    assert(exists|open: &ValidationScope| work.ensures((open,), made)) by {
        assert(work.ensures((&scope,), made));
    }
    let report = match close_validation_scope(scope) {
        Some(error) => Some(error_text(&error)),
        None => None,
    };
    let outcome = captured(made, report);
    assert(outcome matches Ok(value) ==> value == made);
    outcome
}

/// Builds a program from `code` under validation capture: the shader module
/// first, then the pipeline that uses it, both inside one capture region.
/// Yields the program if the region collected no error, and else the
/// rejection with the first error it collected.
fn build_program(
    gpu: &Gpu,
    layout: &wgpu::PipelineLayout,
    v_shader: &wgpu::ShaderModule,
    surface_format: wgpu::TextureFormat,
    code: &str,
) -> (built: Result<Program, ValidationError>)
    ensures
        built matches Ok(program) ==> program.source@ == code@,
{
    with_validation_error_handling(
        gpu,
        (|scope: &ValidationScope| -> (program: Program)
            ensures
                program.source@ == code@,
            {
                let module = create_wgsl_module(scope, "Fragment Shader", code);
                let pipeline = create_pipeline(
                    scope,
                    layout,
                    (v_shader, VERTEX_ENTRY),
                    (&module, FRAGMENT_ENTRY),
                    replace_target(surface_format),
                    strip_primitive(),
                    multisample(SAMPLE_COUNT),
                );
                Program { source: code.to_owned(), module, pipeline }
            }),
    )
}

impl Renderer {
    /// The GPU objects that no reload touches.
    pub closed spec fn fixed(&self) -> FixedParts {
        self.fixed
    }

    /// The device and queue this renderer was made with.
    pub closed spec fn gpu(&self) -> Gpu {
        *self.gpu
    }

    /// The format of the surface this renderer builds its pipelines for.
    pub closed spec fn surface_format(&self) -> wgpu::TextureFormat {
        self.fixed.surface_format
    }

    /// Creates, on `gpu`, the fixed objects, among them the uniform buffer,
    /// which starts out holding [`ViewportInfo::initial`], and builds the
    /// first program from `f_shader`, all under validation capture. On
    /// success the renderer is stable on that program and holds on to
    /// `gpu`; if anything was rejected there is no renderer, only the
    /// report.
    pub fn new(gpu: Arc<Gpu>, surface_format: wgpu::TextureFormat, f_shader: &str) -> (made: Result<
        Renderer,
        ValidationError,
    >)
        ensures
            made matches Ok(renderer) ==> renderer@ == Slots::stable(renderer@.active)
                && renderer@.active.source@ == f_shader@ && renderer.surface_format()
                == surface_format && renderer.gpu() == *gpu,
    {
        let fixed = match with_validation_error_handling(
            &gpu,
            (|scope: &ValidationScope| -> (fixed: FixedParts)
                ensures
                    fixed.surface_format == surface_format,
                { FixedParts::create(scope, surface_format) }),
        ) {
            Ok(fixed) => fixed,
            Err(rejected) => {
                return Err(rejected);
            },
        };
        match build_program(
            &gpu,
            &fixed.pipeline_layout,
            &fixed.v_shader,
            fixed.surface_format,
            f_shader,
        ) {
            Err(rejected) => Err(rejected),
            Ok(program) => Ok(Renderer { gpu, fixed, programs: HotSwap::new(program) }),
        }
    }

    /// Tries to replace the fragment program by one built from
    /// `f_shader_code`. If validation accepts it, it becomes the candidate,
    /// in place of any earlier candidate that was never confirmed, while the
    /// active program stays as fallback. If validation rejects it, nothing
    /// changes and the report is returned.
    pub fn update_fragment(&mut self, f_shader_code: &str) -> (outcome: Result<(), ValidationError>)
        ensures
            final(self).gpu() == old(self).gpu(),
            final(self).fixed() == old(self).fixed(),
            outcome is Err ==> final(self)@ == old(self)@,
            outcome is Ok ==> (final(self)@.candidate matches Some(candidate) && final(self)@
                == old(self)@.staged(candidate) && candidate.source@ == f_shader_code@),
    {
        let built = build_program(
            &self.gpu,
            &self.fixed.pipeline_layout,
            &self.fixed.v_shader,
            self.fixed.surface_format,
            f_shader_code,
        );
        self.programs.stage(built)
    }

    /// Writes the bytes of `viewport_info` over the whole uniform buffer,
    /// then draws the quad with the pipeline of `program` into
    /// `multi_sample_view`, resolved into `surface_view`, and submits; all
    /// inside one capture region. Hands back the record of what the frame
    /// was drawn from, made from the bytes that were written and the
    /// program that was bound, and the first error of the region, if any.
    fn draw_frame(
        fixed: &FixedParts,
        gpu: &Gpu,
        program: &Program,
        surface_view: &wgpu::TextureView,
        multi_sample_view: &wgpu::TextureView,
        viewport_info: ViewportInfo,
    ) -> (drawn: (Drawn, Option<ValidationError>))
        ensures
            drawn.0.source@ == program.source@,
            drawn.0.uniform@.len() == UNIFORM_SIZE,
            drawn.0.uniform@ == packed(viewport_info.words(), false) || drawn.0.uniform@ == packed(
                viewport_info.words(),
                true,
            ),
    {
        proof {
            use_type_invariant(fixed);
        }
        let uniform = viewport_info.to_bytes();
        let verdict = with_validation_error_handling(
            gpu,
            |scope: &ValidationScope| {
                fixed.viewport_info_buffer.overwrite(scope, uniform.as_slice());
                let mut encoder = create_encoder(scope);
                let mut pass = begin_pass(scope, &mut encoder, multi_sample_view, surface_view);
                set_pipeline(scope, &mut pass, &program.pipeline);
                set_bind_group(scope, &mut pass, UNIFORM_GROUP, &fixed.binding_group);
                draw(scope, &mut pass, QUAD_VERTICES);
                end_pass(scope, pass);
                submit(scope, finish(scope, encoder));
            },
        );
        let record = Drawn { source: program.source.clone(), uniform };
        match verdict {
            Ok(()) => (record, None),
            Err(rejected) => (record, Some(rejected)),
        }
    }

    /// Draws one frame with the program on trial, the candidate if there is
    /// one and else the active program, from the bytes of `viewport_info`;
    /// the record handed back says so. [`HotSwap::trial`] picks the program
    /// and settles on the outcome: if the draw raised no error the program
    /// that was drawn is now active and confirmed; if it raised one,
    /// nothing changes, so frames keep being drawn with the fallback.
    pub fn try_render(
        &mut self,
        surface_view: &wgpu::TextureView,
        multi_sample_view: &wgpu::TextureView,
        viewport_info: ViewportInfo,
    ) -> (outcome: (Drawn, Result<(), ValidationError>))
        ensures
            final(self).gpu() == old(self).gpu(),
            final(self).fixed() == old(self).fixed(),
            final(self)@ == old(self)@.settled(outcome.1 is Ok),
            outcome.0.source@ == old(self)@.on_trial().source@,
            outcome.0.uniform@.len() == UNIFORM_SIZE,
            outcome.0.uniform@ == packed(viewport_info.words(), false) || outcome.0.uniform@
                == packed(viewport_info.words(), true),
    {
        let fixed = &self.fixed;
        let gpu = &self.gpu;
        self.programs.trial(
            (|program: &Program| -> (drawn: (Drawn, Option<ValidationError>))
                ensures
                    drawn.0.source@ == program.source@,
                    drawn.0.uniform@.len() == UNIFORM_SIZE,
                    drawn.0.uniform@ == packed(viewport_info.words(), false) || drawn.0.uniform@
                        == packed(viewport_info.words(), true),
                {
                    Renderer::draw_frame(
                        fixed,
                        gpu,
                        program,
                        surface_view,
                        multi_sample_view,
                        viewport_info,
                    )
                }),
        )
    }

    /// Draws one frame with the active program, never with a candidate,
    /// from the bytes of `viewport_info`; the record handed back says so.
    /// [`HotSwap::frame`] picks the program. The draw runs under validation
    /// capture; an error it raised is returned instead of reaching the
    /// uncaptured-error handler.
    pub fn render(
        &self,
        surface_view: &wgpu::TextureView,
        multi_sample_view: &wgpu::TextureView,
        viewport_info: ViewportInfo,
    ) -> (outcome: (Drawn, Result<(), ValidationError>))
        ensures
            outcome.0.source@ == self@.active.source@,
            outcome.0.uniform@.len() == UNIFORM_SIZE,
            outcome.0.uniform@ == packed(viewport_info.words(), false) || outcome.0.uniform@
                == packed(viewport_info.words(), true),
    {
        let fixed = &self.fixed;
        let gpu = &self.gpu;
        let (record, fault) = self.programs.frame(
            (|program: &Program| -> (drawn: (Drawn, Option<ValidationError>))
                ensures
                    drawn.0.source@ == program.source@,
                    drawn.0.uniform@.len() == UNIFORM_SIZE,
                    drawn.0.uniform@ == packed(viewport_info.words(), false) || drawn.0.uniform@
                        == packed(viewport_info.words(), true),
                {
                    Renderer::draw_frame(
                        fixed,
                        gpu,
                        program,
                        surface_view,
                        multi_sample_view,
                        viewport_info,
                    )
                }),
        );
        match fault {
            None => (record, Ok(())),
            Some(rejected) => (record, Err(rejected)),
        }
    }

    /// Takes new source text through the whole protocol: build under
    /// capture, then one trial draw under capture. On success the program
    /// built from `code` is active and confirmed. On failure the active
    /// program is the one it was; the candidate is the one it was if the
    /// build was rejected, and the program built from `code` if only its
    /// draw failed.
    pub fn submit_new_source(
        &mut self,
        code: &str,
        surface_view: &wgpu::TextureView,
        multi_sample_view: &wgpu::TextureView,
        viewport_info: ViewportInfo,
    ) -> (outcome: ReloadOutcome)
        ensures
            final(self).gpu() == old(self).gpu(),
            final(self).fixed() == old(self).fixed(),
            outcome is Success ==> final(self)@.active.source@ == code@ && final(self)@
                == old(self)@.submitted(Some(final(self)@.active), true),
            outcome is Failure ==> final(self)@ == old(self)@.submitted(None, false)
                || (final(self)@.candidate matches Some(candidate) && candidate.source@ == code@
                && final(self)@ == old(self)@.submitted(Some(candidate), false)),
            outcome is Failure ==> final(self)@.active == old(self)@.active,
    {
        match self.update_fragment(code) {
            Err(rejected) => ReloadOutcome::of(Err(rejected)),
            Ok(()) => {
                let (_, drawn) = self.try_render(surface_view, multi_sample_view, viewport_info);
                ReloadOutcome::of(drawn)
            },
        }
    }

    /// The source text of the program frames are drawn with.
    pub fn active_source(&self) -> (source: &str)
        ensures
            source@ == self@.active.source@,
    {
        self.programs.active().source.as_str()
    }

    /// Whether the fragment program is confirmed, that is, no candidate is
    /// awaiting its first successful draw.
    pub fn is_confirmed(&self) -> (confirmed: bool)
        ensures
            confirmed == self@.confirmed(),
    {
        self.programs.is_confirmed()
    }
}

/// Idempotence: submitting the same valid source twice in a row succeeds
/// both times, and after each the active program is one built from that
/// source, confirmed, with no candidate pending.
pub proof fn lemma_resubmission(before: Slots<Program>, first: Program, second: Program)
    requires
        first.source@ == second.source@,
    ensures
        before.submitted(Some(first), true) == Slots::stable(first),
        before.submitted(Some(first), true).submitted(Some(second), true) == Slots::stable(second),
        before.submitted(Some(first), true).active.source@ == before.submitted(
            Some(first),
            true,
        ).submitted(Some(second), true).active.source@,
{
}

} // verus!
