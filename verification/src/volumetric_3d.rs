//! The GPU pipeline state machine.
//!
//! A raw graphics context must pass through a fixed sequence of setup
//! steps before anything can be drawn: vertex buffer setup, shader
//! compilation and linking, texture upload, and metadata binding.  Each
//! step is a typed stage; advancing consumes the predecessor, so a stage
//! can neither be skipped nor repeated, and `render` is reachable only
//! from the final stage.
//!
//! The graphics calls themselves happen outside the library.  Each
//! transition takes the platform's answers (did an allocation succeed,
//! what did the shader compiler report) as plain values and decides,
//! under an exact contract, whether and how the pipeline advances.  Every
//! byte the pipeline asks the platform to upload — the cube strip, the
//! colormap, the padded density buffer — is computed here and verified.

use vstd::prelude::*;
use vstd::arithmetic::div_mod::lemma_fundamental_div_mod_converse;

use crate::app_state::AppState;
use crate::app_state::MouseButton;
use crate::app_state::StateModel;
use crate::app_state::new_spec;
use crate::app_state::scroll_to_zoom_spec;
use crate::app_state::set_arcball_changed_spec;
use crate::app_state::update_mouse_down_spec;
use crate::app_state::update_mouse_pos_spec;

verus! {

/// Voxel dimensions of the loaded volume.
#[derive(Clone, Copy, PartialEq, Eq, Structural, Debug)]
pub struct Dims {
    pub x: i32,
    pub y: i32,
    pub z: i32,
}

impl Dims {
    /// Total number of voxels described by these dimensions.
    pub open spec fn voxel_count(self) -> int {
        self.x * self.y * self.z
    }

    /// Dimensions that describe a volume a density buffer can be built
    /// for: no negative extent, and a voxel count (with its intermediate
    /// product) that fits in memory.
    pub open spec fn wf(self) -> bool {
        &&& 0 <= self.x
        &&& 0 <= self.y
        &&& 0 <= self.z
        &&& self.x * self.y <= usize::MAX
        &&& self.x * self.y * self.z <= usize::MAX
    }

    /// The voxel count as a machine integer.
    pub fn voxels(&self) -> (n: usize)
        requires
            self.wf(),
        ensures
            n == self.voxel_count(),
    {
        let xy: usize = (self.x as usize) * (self.y as usize);
        xy * (self.z as usize)
    }
}

/// A pipeline setup error: either a diagnostic message or a missing
/// graphics object.
#[derive(Debug)]
pub enum Error {
    Message(String),
    Missing,
}

/// The mathematical value of an [`Error`].
pub enum ErrModel {
    Message(Seq<char>),
    Missing,
}

impl View for Error {
    type V = ErrModel;

    open spec fn view(&self) -> ErrModel {
        match self {
            Error::Message(m) => ErrModel::Message(m@),
            Error::Missing => ErrModel::Missing,
        }
    }
}

// ---------------------------------------------------------------------------
// Upload payloads
// ---------------------------------------------------------------------------

/// The fixed cube strip: 14 vertices of 3 components each, walking the
/// bounding box of the unit cube in the winding order the ray marcher
/// expects.  Components are bytes; the platform divides by 255 to get
/// the 0/1 cube corners.
pub open spec fn cube_strip_spec() -> Seq<u8> {
    seq![
        255u8, 255, 0, 0, 255, 0, 255, 255, 255, 0, 255, 255, 0, 0, 255, 0, 255, 0, 0, 0, 0, 255,
        255, 0, 255, 0, 0, 255, 255, 255, 255, 0, 255, 0, 0, 255, 255, 0, 0, 0, 0, 0,
    ]
}

/// Builds the cube strip vertex data.
pub fn cube_strip() -> (r: Vec<u8>)
    ensures
        r@ == cube_strip_spec(),
        r@.len() == 42,
{
    let v: Vec<u8> = vec![
        255, 255, 0, 0, 255, 0, 255, 255, 255, 0, 255, 255, 0, 0, 255, 0, 255, 0, 0, 0, 0, 255,
        255, 0, 255, 0, 0, 255, 255, 255, 255, 0, 255, 0, 0, 255, 255, 0, 0, 0, 0, 0,
    ];
    proof {
        assert(v@ =~= cube_strip_spec());
    }
    v
}

/// Byte `k` of the default colormap: RGBA entries `(i, i, 10, 1)` for
/// each of the 256 scalar values `i`.
pub open spec fn colormap_byte(k: int) -> u8 {
    let i = k / 4;
    let j = k % 4;
    if j == 2 {
        10u8
    } else if j == 3 {
        1u8
    } else {
        i as u8
    }
}

/// Builds the default colormap: 256 RGBA entries, one per scalar value.
pub fn default_colormap() -> (r: Vec<u8>)
    ensures
        r@.len() == 1024,
        forall|k: int| 0 <= k < 1024 ==> #[trigger] r@[k] == colormap_byte(k),
{
    let mut out: Vec<u8> = Vec::new();
    let mut i: usize = 0;
    while i < 256
        invariant
            i <= 256,
            out@.len() == 4 * i,
            forall|k: int| 0 <= k < out@.len() ==> out@[k] == colormap_byte(k),
        decreases 256 - i,
    {
        let b = i as u8;
        out.push(b);
        out.push(b);
        out.push(10);
        out.push(1);
        proof {
            let ii = i as int;
            lemma_fundamental_div_mod_converse(4 * ii, 4, ii, 0);
            lemma_fundamental_div_mod_converse(4 * ii + 1, 4, ii, 1);
            lemma_fundamental_div_mod_converse(4 * ii + 2, 4, ii, 2);
            lemma_fundamental_div_mod_converse(4 * ii + 3, 4, ii, 3);
        }
        i = i + 1;
    }
    out
}

/// A density buffer fitted to exactly `n` texels: the data truncated or
/// zero-padded at the tail.
pub open spec fn pad_spec(data: Seq<u8>, n: int) -> Seq<u8>
    recommends
        n >= 0,
{
    Seq::new(n as nat, |i: int| if i < data.len() { data[i] } else { 0u8 })
}

/// Fits a density buffer to the exact voxel count of `dims` before
/// upload: a buffer of the right size is passed through unchanged, a
/// short one is padded with zeros, a long one is truncated.  The second
/// result reports whether the buffer already matched — a mismatch points
/// at a broken contract with the data loader and deserves a diagnostic.
pub fn density_upload_buffer(volume_density_data: &Vec<u8>, dims: Dims) -> (r: (Vec<u8>, bool))
    requires
        dims.wf(),
    ensures
        r.0@ == pad_spec(volume_density_data@, dims.voxel_count()),
        r.1 == (volume_density_data@.len() == dims.voxel_count()),
        r.0@.len() == dims.voxel_count(),
        forall|i: int|
            0 <= i < r.0@.len() && i < volume_density_data@.len() ==> r.0@[i]
                == volume_density_data@[i],
        forall|i: int| volume_density_data@.len() <= i < r.0@.len() ==> r.0@[i] == 0u8,
{
    let n = dims.voxels();
    let mut out: Vec<u8> = Vec::new();
    let mut i: usize = 0;
    while i < n
        invariant
            i <= n,
            n == dims.voxel_count(),
            out@.len() == i,
            forall|k: int|
                0 <= k < i ==> out@[k] == (if k < volume_density_data@.len() {
                    volume_density_data@[k]
                } else {
                    0u8
                }),
        decreases n - i,
    {
        if i < volume_density_data.len() {
            let v = volume_density_data[i];
            out.push(v);
        } else {
            out.push(0);
        }
        i = i + 1;
    }
    proof {
        assert(out@ =~= pad_spec(volume_density_data@, dims.voxel_count()));
    }
    let matched = volume_density_data.len() == n;
    (out, matched)
}

// ---------------------------------------------------------------------------
// Stages
// ---------------------------------------------------------------------------

/// One setup step of the pipeline, as the ghost step log records it.
pub enum Step {
    Init,
    AssembleProgram,
    BuildTextures,
    SetVolumeMetadata,
}

/// The pipeline before any setup has happened.
pub struct EmptyState {
    steps: Ghost<Seq<Step>>,
}

/// A fresh pipeline around a raw graphics context: nothing set up yet.
pub fn new_empty_state() -> (s: EmptyState)
    ensures
        s.wf(),
{
    let ghost no_steps: Seq<Step> = Seq::empty();
    EmptyState { steps: Ghost(no_steps) }
}

impl EmptyState {
    /// The steps taken so far.
    pub closed spec fn log(self) -> Seq<Step> {
        self.steps@
    }

    /// Nothing has been set up yet.
    pub open spec fn wf(self) -> bool {
        self.log() =~= Seq::<Step>::empty()
    }

    /// Advances to [`VertexInitialised`] once the platform has allocated
    /// a vertex array object and a vertex buffer and uploaded `array`
    /// into it.  `vao_created` and `vbo_created` report whether the two
    /// allocations succeeded; a failed allocation aborts the setup with
    /// a message naming the missing object.
    pub fn init(self, array: &Vec<u8>, vao_created: bool, vbo_created: bool) -> (r: Result<
        VertexInitialised,
        String,
    >)
        requires
            self.wf(),
        ensures
            r is Ok <==> vao_created && vbo_created,
            r matches Ok(v) ==> v.wf() && v.vertices() == array@,
            !vao_created ==> (r matches Err(e) && e@ == "Couldn't instantiate Vertex Array Object"@),
            vao_created && !vbo_created ==> (r matches Err(e)
                && e@ == "Couldn't instantiate Buffer"@),
    {
        if !vao_created {
            return Err("Couldn't instantiate Vertex Array Object".to_owned());
        }
        if !vbo_created {
            return Err("Couldn't instantiate Buffer".to_owned());
        }
        let ghost new_log = self.log().push(Step::Init);
        let ghost vertex_view = array@;
        Ok(VertexInitialised { steps: Ghost(new_log), vertex_bytes: Ghost(vertex_view) })
    }
}

/// The pipeline after vertex setup: the cube strip sits in a vertex
/// buffer, attribute 0 points at it.
pub struct VertexInitialised {
    steps: Ghost<Seq<Step>>,
    vertex_bytes: Ghost<Seq<u8>>,
}

// ---------------------------------------------------------------------------
// Shader compilation and linking
// ---------------------------------------------------------------------------

/// What the platform reports about one shader stage: whether the shader
/// object was allocated, the compile status query (`None` when the query
/// itself failed), and the compiler's log.
pub struct ShaderOutcome {
    pub created: bool,
    pub status: Option<bool>,
    pub log: Option<String>,
}

/// The mathematical value of a [`ShaderOutcome`].
pub struct ShaderModel {
    pub created: bool,
    pub status: Option<bool>,
    pub log: Option<Seq<char>>,
}

impl View for ShaderOutcome {
    type V = ShaderModel;

    open spec fn view(&self) -> ShaderModel {
        ShaderModel {
            created: self.created,
            status: self.status,
            log: match self.log {
                Some(l) => Some(l@),
                None => None,
            },
        }
    }
}

/// A shader stage compiled successfully.
pub open spec fn shader_ok(s: ShaderModel) -> bool {
    s.created && s.status == Some(true)
}

/// The error a failed shader stage produces: a missing object or status
/// query is fatal without diagnostics; a failed compile carries the
/// compiler's log, or a fixed note when the platform kept none.
pub open spec fn shader_err(s: ShaderModel) -> ErrModel {
    if !s.created {
        ErrModel::Missing
    } else if s.status is None {
        ErrModel::Missing
    } else {
        match s.log {
            Some(l) => ErrModel::Message(l),
            None => ErrModel::Message("No compiler log"@),
        }
    }
}

/// Which of the seven required uniforms the linker resolved.
#[derive(Clone, Copy, PartialEq, Eq, Structural, Debug)]
pub struct UniformsFound {
    pub proj_view: bool,
    pub eye_pos: bool,
    pub colormap: bool,
    pub dt_scale: bool,
    pub volume: bool,
    pub volume_dims: bool,
    pub volume_scale: bool,
}

impl UniformsFound {
    /// All seven uniforms were resolved.
    pub open spec fn all_found(self) -> bool {
        self.proj_view && self.eye_pos && self.colormap && self.dt_scale && self.volume
            && self.volume_dims && self.volume_scale
    }
}

/// The name of the first missing uniform, in the order the program
/// resolves them.
pub open spec fn first_missing_uniform(u: UniformsFound) -> Seq<char> {
    if !u.proj_view {
        "proj_view"@
    } else if !u.eye_pos {
        "eye_pos"@
    } else if !u.colormap {
        "colormap"@
    } else if !u.dt_scale {
        "dt_scale"@
    } else if !u.volume {
        "volume"@
    } else if !u.volume_dims {
        "volume_dims"@
    } else {
        "volume_scale"@
    }
}

/// What the platform reports about compiling and linking the program.
pub struct ProgramOutcome {
    pub vertex: ShaderOutcome,
    pub fragment: ShaderOutcome,
    pub program_created: bool,
    pub link_status: Option<bool>,
    pub uniforms: UniformsFound,
}

/// The mathematical value of a [`ProgramOutcome`].
pub struct ProgramModel {
    pub vertex: ShaderModel,
    pub fragment: ShaderModel,
    pub program_created: bool,
    pub link_status: Option<bool>,
    pub uniforms: UniformsFound,
}

impl View for ProgramOutcome {
    type V = ProgramModel;

    open spec fn view(&self) -> ProgramModel {
        ProgramModel {
            vertex: self.vertex@,
            fragment: self.fragment@,
            program_created: self.program_created,
            link_status: self.link_status,
            uniforms: self.uniforms,
        }
    }
}

/// The whole program assembled: both shaders compiled, the program
/// linked, and every required uniform resolved.
pub open spec fn program_ok(o: ProgramModel) -> bool {
    &&& shader_ok(o.vertex)
    &&& shader_ok(o.fragment)
    &&& o.program_created
    &&& o.link_status == Some(true)
    &&& o.uniforms.all_found()
}

/// The error a failed assembly produces, checking in the order the setup
/// runs: vertex shader, fragment shader, program allocation, link status,
/// then the uniforms — a missing uniform is reported by name.
pub open spec fn assemble_err(o: ProgramModel) -> ErrModel {
    if !shader_ok(o.vertex) {
        shader_err(o.vertex)
    } else if !shader_ok(o.fragment) {
        shader_err(o.fragment)
    } else if !o.program_created {
        ErrModel::Missing
    } else if o.link_status is None {
        ErrModel::Missing
    } else if o.link_status == Some(false) {
        ErrModel::Message("Failed to attach shaders to program"@)
    } else {
        ErrModel::Message(first_missing_uniform(o.uniforms))
    }
}

impl VertexInitialised {
    /// The steps taken so far.
    pub closed spec fn log(self) -> Seq<Step> {
        self.steps@
    }

    /// The vertex data uploaded at the previous step.
    pub closed spec fn vertices(self) -> Seq<u8> {
        self.vertex_bytes@
    }

    /// Exactly the vertex setup has happened.
    pub open spec fn wf(self) -> bool {
        self.log() =~= seq![Step::Init]
    }

    /// Judges one shader stage from the platform's report, exactly as
    /// [`shader_ok`] and [`shader_err`] describe it.
    pub fn compile_shader(&self, outcome: ShaderOutcome) -> (r: Result<(), Error>)
        ensures
            r is Ok <==> shader_ok(outcome@),
            r matches Err(e) ==> e@ == shader_err(outcome@),
    {
        if !outcome.created {
            return Err(Error::Missing);
        }
        match outcome.status {
            None => Err(Error::Missing),
            Some(false) => match outcome.log {
                Some(l) => Err(Error::Message(l)),
                None => Err(Error::Message("No compiler log".to_owned())),
            },
            Some(true) => Ok(()),
        }
    }

    /// Advances to [`ProgramCompiled`] when both shaders compiled, the
    /// program linked, and all seven uniforms were resolved; otherwise
    /// reports the first failure, exactly as [`assemble_err`] describes
    /// it.
    pub fn assemble_volumetric_3d_program(self, outcome: ProgramOutcome) -> (r: Result<
        ProgramCompiled,
        Error,
    >)
        requires
            self.wf(),
        ensures
            r is Ok <==> program_ok(outcome@),
            r matches Ok(p) ==> p.wf() && p.vertices() == self.vertices(),
            r matches Err(e) ==> e@ == assemble_err(outcome@),
    {
        let ProgramOutcome { vertex, fragment, program_created, link_status, uniforms } = outcome;
        if let Err(e) = self.compile_shader(vertex) {
            return Err(e);
        }
        if let Err(e) = self.compile_shader(fragment) {
            return Err(e);
        }
        if !program_created {
            return Err(Error::Missing);
        }
        match link_status {
            None => {
                return Err(Error::Missing);
            },
            Some(false) => {
                return Err(Error::Message("Failed to attach shaders to program".to_owned()));
            },
            Some(true) => {},
        }
        if !uniforms.proj_view {
            return Err(Error::Message("proj_view".to_owned()));
        }
        if !uniforms.eye_pos {
            return Err(Error::Message("eye_pos".to_owned()));
        }
        if !uniforms.colormap {
            return Err(Error::Message("colormap".to_owned()));
        }
        if !uniforms.dt_scale {
            return Err(Error::Message("dt_scale".to_owned()));
        }
        if !uniforms.volume {
            return Err(Error::Message("volume".to_owned()));
        }
        if !uniforms.volume_dims {
            return Err(Error::Message("volume_dims".to_owned()));
        }
        if !uniforms.volume_scale {
            return Err(Error::Message("volume_scale".to_owned()));
        }
        let ghost new_log = self.log().push(Step::AssembleProgram);
        let ghost vertex_view = self.vertices();
        Ok(ProgramCompiled { steps: Ghost(new_log), vertex_bytes: Ghost(vertex_view) })
    }
}

/// The pipeline after shader assembly: the program is linked, its seven
/// uniform locations resolved, and it is bound as current.
pub struct ProgramCompiled {
    steps: Ghost<Seq<Step>>,
    vertex_bytes: Ghost<Seq<u8>>,
}

// ---------------------------------------------------------------------------
// Fixed-function state and textures
// ---------------------------------------------------------------------------

/// Which face of a triangle is culled.
#[derive(Clone, Copy, PartialEq, Eq, Structural, Debug)]
pub enum CullMode {
    Front,
    Back,
}

/// A blend factor of the standard alpha-blending equation.
#[derive(Clone, Copy, PartialEq, Eq, Structural, Debug)]
pub enum BlendFactor {
    One,
    OneMinusSrcAlpha,
}

/// The fixed-function state the pipeline runs under.  The step-size
/// scale is the exact rational `dt_scale_num / dt_scale_den`.
#[derive(Clone, Copy, PartialEq, Eq, Structural, Debug)]
pub struct FixedFunctionState {
    pub volume_texture_unit: i32,
    pub colormap_texture_unit: i32,
    pub dt_scale_num: i32,
    pub dt_scale_den: i32,
    pub cull: CullMode,
    pub blend_src: BlendFactor,
    pub blend_dst: BlendFactor,
}

/// Whether the platform managed to allocate the two textures and upload
/// their contents.
#[derive(Clone, Copy, PartialEq, Eq, Structural, Debug)]
pub struct TextureOutcome {
    pub colormap_created: bool,
    pub colormap_uploaded: bool,
    pub volume_created: bool,
    pub volume_uploaded: bool,
}

impl TextureOutcome {
    /// Both textures were allocated and filled.
    pub open spec fn all_ok(self) -> bool {
        self.colormap_created && self.colormap_uploaded && self.volume_created
            && self.volume_uploaded
    }
}

/// The error a failed texture build produces, checking in the order the
/// setup runs: colormap allocation, colormap upload, volume allocation,
/// volume upload.
pub open spec fn textures_err(t: TextureOutcome) -> ErrModel {
    if !t.colormap_created {
        ErrModel::Missing
    } else if !t.colormap_uploaded {
        ErrModel::Message("Js"@)
    } else if !t.volume_created {
        ErrModel::Missing
    } else {
        ErrModel::Message(""@)
    }
}

impl ProgramCompiled {
    /// The steps taken so far.
    pub closed spec fn log(self) -> Seq<Step> {
        self.steps@
    }

    /// The vertex data uploaded at the first step.
    pub closed spec fn vertices(self) -> Seq<u8> {
        self.vertex_bytes@
    }

    /// Vertex setup and shader assembly have happened, in that order.
    pub open spec fn wf(self) -> bool {
        self.log() =~= seq![Step::Init, Step::AssembleProgram]
    }

    /// The one-time fixed-function setup the platform must apply: the
    /// volume texture on unit 0 and the colormap on unit 1, a default
    /// step-size scale of one, front-face culling (the camera sits
    /// inside the bounding cube, so its inside is drawn), and standard
    /// alpha blending.
    pub fn init(&self) -> (r: FixedFunctionState)
        ensures
            r.volume_texture_unit == 0,
            r.colormap_texture_unit == 1,
            r.dt_scale_num == 1,
            r.dt_scale_den == 1,
            r.cull == CullMode::Front,
            r.blend_src == BlendFactor::One,
            r.blend_dst == BlendFactor::OneMinusSrcAlpha,
    {
        FixedFunctionState {
            volume_texture_unit: 0,
            colormap_texture_unit: 1,
            dt_scale_num: 1,
            dt_scale_den: 1,
            cull: CullMode::Front,
            blend_src: BlendFactor::One,
            blend_dst: BlendFactor::OneMinusSrcAlpha,
        }
    }

    /// Advances to [`ProgramCompiledWithTextures`] when the platform
    /// allocated and filled both textures; otherwise reports the first
    /// failure, exactly as [`textures_err`] describes it.
    ///
    /// The density bytes the platform must upload are
    /// `pad_spec(volume_density_data, dims.voxel_count())` — see
    /// [`density_upload_buffer`], which computes them and reports
    /// whether the buffer length already matched the voxel count.
    pub fn build_textures(
        self,
        colormap_data: &Vec<u8>,
        volume_density_data: &Vec<u8>,
        dims: Dims,
        gpu: &TextureOutcome,
    ) -> (r: Result<ProgramCompiledWithTextures, Error>)
        requires
            self.wf(),
            dims.wf(),
        ensures
            r is Ok <==> gpu.all_ok(),
            r matches Err(e) ==> e@ == textures_err(*gpu),
            r matches Ok(s) ==> {
                &&& s.wf()
                &&& s.dims_spec() == dims
                &&& s.colormap() == colormap_data@
                &&& s.density_texels() == pad_spec(volume_density_data@, dims.voxel_count())
                &&& s.size_matched_spec() == (volume_density_data@.len() == dims.voxel_count())
                &&& s.vertices() == self.vertices()
            },
    {
        if !gpu.colormap_created {
            return Err(Error::Missing);
        }
        if !gpu.colormap_uploaded {
            return Err(Error::Message("Js".to_owned()));
        }
        if !gpu.volume_created {
            return Err(Error::Missing);
        }
        if !gpu.volume_uploaded {
            return Err(Error::Message("".to_owned()));
        }
        let matched = volume_density_data.len() == dims.voxels();
        let ghost new_log = self.log().push(Step::BuildTextures);
        let ghost vertex_view = self.vertices();
        let ghost colormap_view = colormap_data@;
        let ghost texel_view = pad_spec(volume_density_data@, dims.voxel_count());
        Ok(
            ProgramCompiledWithTextures {
                steps: Ghost(new_log),
                vertex_bytes: Ghost(vertex_view),
                colormap_bytes: Ghost(colormap_view),
                texel_bytes: Ghost(texel_view),
                dims,
                size_matched: matched,
            },
        )
    }
}

/// The pipeline after texture upload: the colormap and the density
/// volume sit in their textures.
pub struct ProgramCompiledWithTextures {
    steps: Ghost<Seq<Step>>,
    vertex_bytes: Ghost<Seq<u8>>,
    colormap_bytes: Ghost<Seq<u8>>,
    texel_bytes: Ghost<Seq<u8>>,
    dims: Dims,
    size_matched: bool,
}

impl ProgramCompiledWithTextures {
    /// The steps taken so far.
    pub closed spec fn log(self) -> Seq<Step> {
        self.steps@
    }

    /// The vertex data uploaded at the first step.
    pub closed spec fn vertices(self) -> Seq<u8> {
        self.vertex_bytes@
    }

    /// The colormap bytes uploaded.
    pub closed spec fn colormap(self) -> Seq<u8> {
        self.colormap_bytes@
    }

    /// The density texels uploaded, already fitted to the voxel count.
    pub closed spec fn density_texels(self) -> Seq<u8> {
        self.texel_bytes@
    }

    /// The voxel dimensions the volume texture was built with.
    pub closed spec fn dims_spec(self) -> Dims {
        self.dims
    }

    /// Whether the density buffer's length already matched the voxel
    /// count; `false` means the upload was padded or truncated and the
    /// data loader broke its contract.
    pub closed spec fn size_matched_spec(self) -> bool {
        self.size_matched
    }

    /// Reports [`Self::size_matched_spec`], so the caller can log a
    /// diagnostic about a mismatched density buffer.
    pub fn size_matched(&self) -> (r: bool)
        ensures
            r == self.size_matched_spec(),
    {
        self.size_matched
    }

    /// Vertex setup, shader assembly and texture upload have happened,
    /// in that order, and the texels fit the dimensions.
    pub open spec fn wf(self) -> bool {
        &&& self.log() =~= seq![Step::Init, Step::AssembleProgram, Step::BuildTextures]
        &&& self.dims_spec().wf()
        &&& self.density_texels().len() == self.dims_spec().voxel_count()
    }

    /// Advances to [`ProgramReady`]: the platform must bind `dims` and
    /// the unit volume scale as uniforms; from the result only rendering
    /// is reachable.
    pub fn set_volume_metadata(self, dims: Dims) -> (r: ProgramReady)
        requires
            self.wf(),
        ensures
            r.wf(),
            r.dims_spec() == dims,
            r.colormap() == self.colormap(),
            r.density_texels() == self.density_texels(),
            r.vertices() == self.vertices(),
    {
        let ghost new_log = self.log().push(Step::SetVolumeMetadata);
        ProgramReady {
            steps: Ghost(new_log),
            vertex_bytes: self.vertex_bytes,
            colormap_bytes: self.colormap_bytes,
            texel_bytes: self.texel_bytes,
            dims,
        }
    }
}

// ---------------------------------------------------------------------------
// The ready pipeline and rendering
// ---------------------------------------------------------------------------

/// The finished pipeline.  Only rendering is reachable from here.
pub struct ProgramReady {
    steps: Ghost<Seq<Step>>,
    vertex_bytes: Ghost<Seq<u8>>,
    colormap_bytes: Ghost<Seq<u8>>,
    texel_bytes: Ghost<Seq<u8>>,
    dims: Dims,
}

/// The perspective projection every frame uses: a 65 degree vertical
/// field of view between the near plane at 1 and the far plane at 200;
/// the aspect ratio comes from the current canvas size.
#[derive(Clone, Copy, PartialEq, Eq, Structural, Debug)]
pub struct PerspectiveParams {
    pub fovy_deg: u32,
    pub near: u32,
    pub far: u32,
}

/// The fixed perspective parameters.
pub fn perspective_params() -> (r: PerspectiveParams)
    ensures
        r.fovy_deg == 65,
        r.near == 1,
        r.far == 200,
{
    PerspectiveParams { fovy_deg: 65, near: 1, far: 200 }
}

/// One draw call: a triangle strip of `vertex_count` vertices starting
/// at `first`.
#[derive(Clone, Copy, PartialEq, Eq, Structural, Debug)]
pub struct DrawCall {
    pub first: i32,
    pub vertex_count: i32,
}

/// What one render tick decided: the draw call to issue, or nothing
/// when the frame is still fresh.
#[derive(Clone, Copy, PartialEq, Eq, Structural, Debug)]
pub struct RenderOutcome {
    pub draw: Option<DrawCall>,
}

/// The number of draw calls an outcome issues.
pub open spec fn draw_count(r: RenderOutcome) -> int {
    if r.draw is Some {
        1
    } else {
        0
    }
}

/// What one render tick does to the shared state: a dirty state gets one
/// draw call and a cleared flag; a clean one is left untouched, with no
/// draw call at all.
pub open spec fn render_step_spec(s: StateModel) -> (StateModel, int) {
    if s.dirty {
        (set_arcball_changed_spec(s, false), 1)
    } else {
        (s, 0)
    }
}

impl ProgramReady {
    /// The steps taken so far.
    pub closed spec fn log(self) -> Seq<Step> {
        self.steps@
    }

    /// The vertex data uploaded at the first step.
    pub closed spec fn vertices(self) -> Seq<u8> {
        self.vertex_bytes@
    }

    /// The colormap bytes uploaded.
    pub closed spec fn colormap(self) -> Seq<u8> {
        self.colormap_bytes@
    }

    /// The density texels uploaded.
    pub closed spec fn density_texels(self) -> Seq<u8> {
        self.texel_bytes@
    }

    /// The voxel dimensions bound as metadata.
    pub closed spec fn dims_spec(self) -> Dims {
        self.dims
    }

    /// Every setup step has happened, once each, in order.
    pub open spec fn wf(self) -> bool {
        self.log() =~= seq![
            Step::Init,
            Step::AssembleProgram,
            Step::BuildTextures,
            Step::SetVolumeMetadata,
        ]
    }

    /// The voxel dimensions bound as metadata, for the platform's
    /// uniform upload.
    pub fn dims(&self) -> (r: Dims)
        ensures
            r == self.dims_spec(),
    {
        self.dims
    }

    /// The volume scale bound as metadata: a unit scale per axis.
    pub fn volume_scale(&self) -> (r: (i32, i32, i32))
        ensures
            r == (1i32, 1i32, 1i32),
    {
        (1, 1, 1)
    }

    /// One render tick.  Reads the dirty flag: a clean state means the
    /// picture on screen is already current, so no draw call is issued
    /// and the state is untouched; a dirty state yields exactly one
    /// 14-vertex triangle-strip draw call — the platform executes it
    /// with the current camera matrices — and the flag is cleared.
    pub fn render_from_state(&self, app_state: &mut AppState) -> (r: RenderOutcome)
        requires
            self.wf(),
        ensures
            final(app_state)@ == render_step_spec(old(app_state)@).0,
            draw_count(r) == render_step_spec(old(app_state)@).1,
            r.draw is Some <==> old(app_state)@.dirty,
            r.draw matches Some(d) ==> d.first == 0 && d.vertex_count == 14,
    {
        if app_state.get_arcball_changed() {
            app_state.set_arcball_changed(false);
            RenderOutcome { draw: Some(DrawCall { first: 0, vertex_count: 14 }) }
        } else {
            RenderOutcome { draw: None }
        }
    }
}

// ---------------------------------------------------------------------------
// Laws
// ---------------------------------------------------------------------------

/// Rendering is reachable only through the full setup chain: a ready
/// pipeline has taken exactly the four steps — vertex setup, shader
/// assembly, texture upload, metadata binding — once each, in that
/// order.  Each transition consumes its predecessor, so no sequence of
/// operations can reorder, skip or repeat a step.
pub proof fn lemma_render_only_after_full_setup(p: ProgramReady)
    requires
        p.wf(),
    ensures
        p.log() =~= seq![
            Step::Init,
            Step::AssembleProgram,
            Step::BuildTextures,
            Step::SetVolumeMetadata,
        ],
{
}

/// The dirty flag gates rendering: a freshly constructed state draws
/// nothing; after a camera-mutating input — a scroll, or a left-button
/// drag — the next tick issues exactly one draw call, and further ticks
/// issue none until the next input.
pub proof fn lemma_dirty_flag_gating(
    s: StateModel,
    delta: int,
    down_x: int,
    down_y: int,
    move_x: int,
    move_y: int,
)
    requires
        !s.dirty,
    ensures
        !new_spec().dirty,
        render_step_spec(s) == (s, 0int),
        ({
            let s1 = scroll_to_zoom_spec(s, delta);
            let (s2, d2) = render_step_spec(s1);
            &&& d2 == 1
            &&& !s2.dirty
            &&& render_step_spec(s2).1 == 0
        }),
        ({
            let sd = update_mouse_down_spec(s, down_x, down_y, Some(MouseButton::Left));
            let s1 = update_mouse_pos_spec(sd, move_x, move_y);
            let (s2, d2) = render_step_spec(s1);
            &&& d2 == 1
            &&& !s2.dirty
            &&& render_step_spec(s2).1 == 0
        }),
{
}

} // verus!
