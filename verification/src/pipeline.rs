//! Graphics pipelines and the binding-table templates they pre-build.
//!
//! A pipeline is created once by the device; what this module holds verified
//! is every decision taken on the way there: which dynamic states the
//! viewport and scissor choices imply, how a cull mode translates to device
//! culling and winding, how a binding layout becomes numbered device layout
//! bindings, and how the per-frame-slot descriptor pool and write templates
//! are sized — always one binding-table instance per frame slot.

use vstd::prelude::*;

use crate::descriptor::Descriptor;
use crate::MAX_FRAMES_IN_FLIGHT;

verus! {

/// Device cull-mode flags: cull nothing.
pub const CULL_MODE_NONE: u32 = 0x0;

/// Device cull-mode flags: cull back faces.
pub const CULL_MODE_BACK: u32 = 0x2;

/// Device front-face value: counter-clockwise winding.
pub const FRONT_FACE_COUNTER_CLOCKWISE: i32 = 0;

/// Device front-face value: clockwise winding.
pub const FRONT_FACE_CLOCKWISE: i32 = 1;

/// Device dynamic-state value: the viewport is set while recording.
pub const DYNAMIC_STATE_VIEWPORT: i32 = 0;

/// Device dynamic-state value: the scissor is set while recording.
pub const DYNAMIC_STATE_SCISSOR: i32 = 1;

/// The viewport a pipeline is built with: fixed at creation, or set anew
/// while recording each frame. A fixed viewport is carried to the device
/// untouched.
pub enum ViewportConfig {
    Dynamic,
    Fixed { viewport: ash::vk::Viewport },
}

/// The scissor a pipeline is built with: fixed at creation, or set anew while
/// recording each frame.
#[derive(Clone, Copy, Debug, PartialEq, Eq, Structural)]
pub enum Scissor {
    Dynamic,
    Static { x: i32, y: i32, width: u32, height: u32 },
}

/// Which faces the rasterizer culls, by their winding.
#[derive(Clone, Copy, Debug, PartialEq, Eq, Structural)]
pub enum CullMode {
    Clockwise,
    AntiClockwise,
    Disabled,
}

/// One binding of a pipeline's binding-table layout: the descriptor kind and
/// the shader stages that read it, as raw device values. The binding's index
/// is its position in the layout's vector.
#[derive(Clone, Copy, Debug, PartialEq, Eq, Structural)]
pub struct DescriptorSetBinding {
    pub descriptor_type: i32,
    pub stage_flags: u32,
}

/// A pipeline's binding-table layout. The index of each binding in the
/// vector is used as its binding index towards the device.
pub struct DescriptorSetLayout {
    pub bindings: Vec<DescriptorSetBinding>,
}

/// One vertex-buffer binding description, as plain values.
#[derive(Clone, Copy, Debug, PartialEq, Eq, Structural)]
pub struct VertexInputBinding {
    pub binding: u32,
    pub stride: u32,
    pub per_instance: bool,
}

/// One vertex-attribute description, as plain values; `format` is the raw
/// device format value.
#[derive(Clone, Copy, Debug, PartialEq, Eq, Structural)]
pub struct VertexInputAttribute {
    pub location: u32,
    pub binding: u32,
    pub format: i32,
    pub offset: u32,
}

/// Everything a graphics pipeline is created from. Shader binaries and
/// vertex layouts are carried to the device untouched; `topology` and
/// `polygon_mode` are raw device values.
pub struct GraphicsPipelineCreateInfo {
    pub name: String,
    pub vertex_bin: Vec<u8>,
    pub fragment_bin: Vec<u8>,
    pub vertex_binding_descriptions: Vec<VertexInputBinding>,
    pub vertex_attribute_descriptions: Vec<VertexInputAttribute>,
    pub topology: i32,
    pub viewport: ViewportConfig,
    pub scissor: Scissor,
    pub polygon_mode: i32,
    pub cull_mode: CullMode,
    pub descriptor_set_layout: Option<DescriptorSetLayout>,
}

/// Culling and winding the device is configured with.
#[derive(Clone, Copy, Debug, PartialEq, Eq, Structural)]
pub struct CullSettings {
    pub cull_flags: u32,
    pub front_face: i32,
}

/// How a cull mode translates to the device: no culling leaves the winding
/// at clockwise (it does not matter then); otherwise back faces are culled
/// and the winding names which faces are front.
pub open spec fn spec_cull_settings(cull_mode: CullMode) -> CullSettings {
    match cull_mode {
        CullMode::Disabled => CullSettings {
            cull_flags: CULL_MODE_NONE,
            front_face: FRONT_FACE_CLOCKWISE,
        },
        CullMode::Clockwise => CullSettings {
            cull_flags: CULL_MODE_BACK,
            front_face: FRONT_FACE_CLOCKWISE,
        },
        CullMode::AntiClockwise => CullSettings {
            cull_flags: CULL_MODE_BACK,
            front_face: FRONT_FACE_COUNTER_CLOCKWISE,
        },
    }
}

pub fn cull_settings(cull_mode: &CullMode) -> (r: CullSettings)
    ensures
        r == spec_cull_settings(*cull_mode),
{
    match cull_mode {
        CullMode::Disabled => CullSettings {
            cull_flags: CULL_MODE_NONE,
            front_face: FRONT_FACE_CLOCKWISE,
        },
        CullMode::Clockwise => CullSettings {
            cull_flags: CULL_MODE_BACK,
            front_face: FRONT_FACE_CLOCKWISE,
        },
        CullMode::AntiClockwise => CullSettings {
            cull_flags: CULL_MODE_BACK,
            front_face: FRONT_FACE_COUNTER_CLOCKWISE,
        },
    }
}

/// The dynamic states a pipeline declares: the viewport when it is dynamic,
/// then the scissor when it is dynamic, in that order.
pub open spec fn spec_dynamic_states(viewport_dynamic: bool, scissor_dynamic: bool) -> Seq<i32> {
    let v = if viewport_dynamic {
        seq![DYNAMIC_STATE_VIEWPORT]
    } else {
        Seq::empty()
    };
    let s = if scissor_dynamic {
        seq![DYNAMIC_STATE_SCISSOR]
    } else {
        Seq::empty()
    };
    v + s
}

pub fn dynamic_states(viewport: &ViewportConfig, scissor: &Scissor) -> (r: Vec<i32>)
    ensures
        r@ == spec_dynamic_states(*viewport is Dynamic, *scissor is Dynamic),
{
    let mut r: Vec<i32> = Vec::new();
    if let ViewportConfig::Dynamic = viewport {
        r.push(DYNAMIC_STATE_VIEWPORT);
    }
    if let Scissor::Dynamic = scissor {
        r.push(DYNAMIC_STATE_SCISSOR);
    }
    proof {
        assert(r@ =~= spec_dynamic_states(*viewport is Dynamic, *scissor is Dynamic));
    }
    r
}

/// One numbered device layout binding: binding `i` of the layout vector, one
/// descriptor of its kind, visible to its stages.
#[derive(Clone, Copy, Debug, PartialEq, Eq, Structural)]
pub struct LayoutBinding {
    pub binding: u32,
    pub descriptor_type: i32,
    pub descriptor_count: u32,
    pub stage_flags: u32,
}

/// The numbered device layout bindings of a binding-table layout: binding `i`
/// is the `i`-th entry of the layout, with exactly one descriptor.
pub open spec fn spec_layout_bindings(bindings: Seq<DescriptorSetBinding>) -> Seq<LayoutBinding> {
    Seq::new(
        bindings.len(),
        |i: int|
            LayoutBinding {
                binding: i as u32,
                descriptor_type: bindings[i].descriptor_type,
                descriptor_count: 1,
                stage_flags: bindings[i].stage_flags,
            },
    )
}

pub fn layout_bindings(layout: &DescriptorSetLayout) -> (r: Vec<LayoutBinding>)
    requires
        layout.bindings@.len() <= u32::MAX,
    ensures
        r@ == spec_layout_bindings(layout.bindings@),
{
    let mut r: Vec<LayoutBinding> = Vec::new();
    let mut i: usize = 0;
    while i < layout.bindings.len()
        invariant
            i <= layout.bindings@.len(),
            layout.bindings@.len() <= u32::MAX,
            r@ == spec_layout_bindings(layout.bindings@).take(i as int),
        decreases layout.bindings@.len() - i,
    {
        let b = layout.bindings[i];
        r.push(
            LayoutBinding {
                binding: i as u32,
                descriptor_type: b.descriptor_type,
                descriptor_count: 1,
                stage_flags: b.stage_flags,
            },
        );
        proof {
            assert(r@ =~= spec_layout_bindings(layout.bindings@).take(i + 1));
        }
        i = i + 1;
    }
    proof {
        assert(r@ =~= spec_layout_bindings(layout.bindings@));
    }
    r
}

/// One entry of the descriptor pool's sizing: room for one descriptor of the
/// kind per frame slot.
#[derive(Clone, Copy, Debug, PartialEq, Eq, Structural)]
pub struct DescriptorPoolSize {
    pub descriptor_type: i32,
    pub descriptor_count: u32,
}

/// How the binding-table pool of a pipeline is sized: one table instance per
/// frame slot, and for every binding of the layout, one descriptor of its
/// kind per frame slot.
pub struct DescriptorPoolPlan {
    pub max_sets: u32,
    pub pool_sizes: Vec<DescriptorPoolSize>,
}

/// The pool sizes for a layout: entry `i` asks for as many descriptors of
/// binding `i`'s kind as there are frame slots.
pub open spec fn spec_pool_sizes(bindings: Seq<DescriptorSetBinding>) -> Seq<DescriptorPoolSize> {
    Seq::new(
        bindings.len(),
        |i: int|
            DescriptorPoolSize {
                descriptor_type: bindings[i].descriptor_type,
                descriptor_count: MAX_FRAMES_IN_FLIGHT as u32,
            },
    )
}

/// The kinds of the layout's bindings, in binding order: the write templates
/// pre-built for every frame slot.
pub open spec fn spec_binding_types(bindings: Seq<DescriptorSetBinding>) -> Seq<i32> {
    Seq::new(bindings.len(), |i: int| bindings[i].descriptor_type)
}

/// A graphics pipeline: the device objects it owns and the binding-table
/// plans it pre-built for the fixed ring of frame slots. Handles are raw
/// device object ids.
pub struct GraphicsPipeline {
    descriptor_pool_plan: Option<DescriptorPoolPlan>,
    descriptor_set_layout: u64,
    binding_types: Vec<i32>,
    pipeline_layout: u64,
    pipeline: u64,
}

impl GraphicsPipeline {
    pub closed spec fn spec_handle(self) -> u64 {
        self.pipeline
    }

    pub closed spec fn spec_pipeline_layout(self) -> u64 {
        self.pipeline_layout
    }

    pub closed spec fn spec_descriptor_set_layout(self) -> u64 {
        self.descriptor_set_layout
    }

    pub closed spec fn spec_binding_types(self) -> Seq<i32> {
        self.binding_types@
    }

    pub closed spec fn has_pool_plan(self) -> bool {
        self.descriptor_pool_plan is Some
    }

    /// A pipeline's pool plan, when it has one, is sized for the fixed ring of
    /// frame slots, with one pool entry per pre-built write template.
    pub closed spec fn wf(self) -> bool {
        self.descriptor_pool_plan matches Some(p) ==> p.max_sets == MAX_FRAMES_IN_FLIGHT as u32
            && p.pool_sizes@.len() == self.binding_types@.len()
    }

    /// Assemble the pipeline from the device objects the device collaborator
    /// created and the layout the pipeline was built with. The pool plan and
    /// the write templates exist exactly when the pipeline has a binding
    /// layout; both are sized for the fixed ring of frame slots.
    pub fn from_parts(
        pipeline: u64,
        pipeline_layout: u64,
        descriptor_set_layout: u64,
        layout: &Option<DescriptorSetLayout>,
    ) -> (r: GraphicsPipeline)
        requires
            layout matches Some(l) ==> l.bindings@.len() <= u32::MAX,
        ensures
            r.wf(),
            r.spec_handle() == pipeline,
            r.spec_pipeline_layout() == pipeline_layout,
            r.spec_descriptor_set_layout() == descriptor_set_layout,
            r.has_pool_plan() <==> layout is Some,
            layout matches Some(l) ==> r.spec_binding_types() == spec_binding_types(l.bindings@),
            layout is None ==> r.spec_binding_types().len() == 0,
    {
        let (descriptor_pool_plan, binding_types) = match layout {
            Some(l) => (
                Some(pool_plan_for(l)),
                binding_types_for(l),
            ),
            None => (None, Vec::new()),
        };
        GraphicsPipeline {
            descriptor_pool_plan,
            descriptor_set_layout,
            binding_types,
            pipeline_layout,
            pipeline,
        }
    }

    /// The pool plan pre-built at creation, if the pipeline has a binding
    /// layout: room for one table instance per frame slot.
    pub fn descriptor_pool_plan(&self) -> (r: &Option<DescriptorPoolPlan>)
        requires
            self.wf(),
        ensures
            r is Some <==> self.has_pool_plan(),
            r matches Some(p) ==> p.max_sets == MAX_FRAMES_IN_FLIGHT as u32,
            r matches Some(p) ==> p.pool_sizes@.len() == self.spec_binding_types().len(),
    {
        &self.descriptor_pool_plan
    }

    /// Assemble a binding table from the pool and table instances the device
    /// allocated, one instance per frame slot, carrying the pipeline's write
    /// templates. Returns nothing exactly when the pipeline was built without
    /// a binding layout and so has no pool plan.
    pub fn create_descriptor(&self, descriptor_pool: u64, descriptor_set: Vec<u64>) -> (r: Option<
        Descriptor,
    >)
        requires
            descriptor_set@.len() == MAX_FRAMES_IN_FLIGHT,
        ensures
            r is Some <==> self.has_pool_plan(),
            r matches Some(d) ==> {
                &&& d.wf()
                &&& d.descriptor_pool == descriptor_pool
                &&& d.descriptor_set@ == descriptor_set@
                &&& d.binding_types@ == self.spec_binding_types()
            },
    {
        if self.descriptor_pool_plan.is_none() {
            return None;
        }
        let mut binding_types: Vec<i32> = Vec::new();
        let mut i: usize = 0;
        while i < self.binding_types.len()
            invariant
                i <= self.binding_types@.len(),
                binding_types@ == self.binding_types@.take(i as int),
            decreases self.binding_types@.len() - i,
        {
            binding_types.push(self.binding_types[i]);
            proof {
                assert(binding_types@ =~= self.binding_types@.take(i + 1));
            }
            i = i + 1;
        }
        proof {
            assert(binding_types@ =~= self.binding_types@);
        }
        Some(Descriptor { descriptor_pool, descriptor_set, binding_types })
    }

    /// The raw device pipeline handle.
    pub fn handle(&self) -> (r: u64)
        ensures
            r == self.spec_handle(),
    {
        self.pipeline
    }

    /// The raw device pipeline-layout handle.
    pub fn pipeline_layout(&self) -> (r: u64)
        ensures
            r == self.spec_pipeline_layout(),
    {
        self.pipeline_layout
    }

    /// The raw device binding-table-layout handle.
    pub fn descriptor_set_layout(&self) -> (r: u64)
        ensures
            r == self.spec_descriptor_set_layout(),
    {
        self.descriptor_set_layout
    }
}

/// The pool plan for a binding layout: one table instance per frame slot and,
/// per binding, one descriptor of its kind per frame slot.
pub fn pool_plan_for(layout: &DescriptorSetLayout) -> (r: DescriptorPoolPlan)
    ensures
        r.max_sets == MAX_FRAMES_IN_FLIGHT as u32,
        r.pool_sizes@ == spec_pool_sizes(layout.bindings@),
{
    let mut pool_sizes: Vec<DescriptorPoolSize> = Vec::new();
    let mut i: usize = 0;
    while i < layout.bindings.len()
        invariant
            i <= layout.bindings@.len(),
            pool_sizes@ == spec_pool_sizes(layout.bindings@).take(i as int),
        decreases layout.bindings@.len() - i,
    {
        pool_sizes.push(
            DescriptorPoolSize {
                descriptor_type: layout.bindings[i].descriptor_type,
                descriptor_count: MAX_FRAMES_IN_FLIGHT as u32,
            },
        );
        proof {
            assert(pool_sizes@ =~= spec_pool_sizes(layout.bindings@).take(i + 1));
        }
        i = i + 1;
    }
    proof {
        assert(pool_sizes@ =~= spec_pool_sizes(layout.bindings@));
    }
    DescriptorPoolPlan { max_sets: MAX_FRAMES_IN_FLIGHT as u32, pool_sizes }
}

/// The binding kinds of a layout, in binding order.
pub fn binding_types_for(layout: &DescriptorSetLayout) -> (r: Vec<i32>)
    ensures
        r@ == spec_binding_types(layout.bindings@),
{
    let mut r: Vec<i32> = Vec::new();
    let mut i: usize = 0;
    while i < layout.bindings.len()
        invariant
            i <= layout.bindings@.len(),
            r@ == spec_binding_types(layout.bindings@).take(i as int),
        decreases layout.bindings@.len() - i,
    {
        r.push(layout.bindings[i].descriptor_type);
        proof {
            assert(r@ =~= spec_binding_types(layout.bindings@).take(i + 1));
        }
        i = i + 1;
    }
    proof {
        assert(r@ =~= spec_binding_types(layout.bindings@));
    }
    r
}

} // verus!
