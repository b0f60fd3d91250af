//! Document-tree construction: nodes, their event hooks, and the tree
//! itself.
//!
//! Foreign callback function pointers are carried here as opaque integer
//! tokens: which foreign function a token names is the embedder's business,
//! and no logic of this library depends on it.  Logical (scaled)
//! coordinates are carried as fixed-point numbers, like every fractional CSS
//! value of this library.

use vstd::prelude::*;

use crate::css::AzCssProperty;
use crate::css_values::AzFloatValue;
use crate::optional::FfiOption;
use crate::refany::AzRefAny;
use crate::string::AzString;
use crate::vector::BufferHeap;
use crate::vector::Vector;
use crate::vector::VectorDestructor;
use crate::vector::max_buffers;

pub use self::AzCallback as Callback;
pub use self::AzCallbackData as CallbackData;
pub use self::AzDom as Dom;
pub use self::AzEventFilter as EventFilter;
pub use self::AzGlCallback as GlCallback;
pub use self::AzGlTextureNode as GlTextureNode;
pub use self::AzIFrameCallback as IFrameCallback;
pub use self::AzIFrameNode as IFrameNode;
pub use self::AzIdOrClass as IdOrClass;
pub use self::AzImageId as ImageId;
pub use self::AzImageMask as ImageMask;
pub use self::AzLogicalPosition as LogicalPosition;
pub use self::AzLogicalRect as LogicalRect;
pub use self::AzLogicalSize as LogicalSize;
pub use self::AzNodeData as NodeData;
pub use self::AzNodeDataInlineCssProperty as NodeDataInlineCssProperty;
pub use self::AzNodeType as NodeType;
pub use self::AzOn as On;
pub use self::AzTabIndex as TabIndex;
pub use self::AzHoverEventFilter as HoverEventFilter;
pub use self::AzFocusEventFilter as FocusEventFilter;
pub use self::AzNotEventFilter as NotEventFilter;
pub use self::AzWindowEventFilter as WindowEventFilter;
pub use self::AzComponentEventFilter as ComponentEventFilter;
pub use self::AzApplicationEventFilter as ApplicationEventFilter;

verus! {

/// An opaque token standing for a foreign callback function pointer.
pub type AzCallbackType = usize;

pub type AzIFrameCallbackType = usize;

pub type AzGlCallbackType = usize;

#[derive(Debug, Clone, Copy, PartialEq, Eq, Structural)]
pub struct AzCallback {
    pub cb: AzCallbackType,
}

#[derive(Debug, Clone, Copy, PartialEq, Eq, Structural)]
pub struct AzIFrameCallback {
    pub cb: AzIFrameCallbackType,
}

#[derive(Debug, Clone, Copy, PartialEq, Eq, Structural)]
pub struct AzGlCallback {
    pub cb: AzGlCallbackType,
}

#[derive(Debug, Clone, Copy, PartialEq, Eq, Structural)]
pub struct AzImageId {
    pub id: usize,
}

#[derive(Debug, Clone, Copy, PartialEq)]
pub struct AzLogicalPosition {
    pub x: AzFloatValue,
    pub y: AzFloatValue,
}

#[derive(Debug, Clone, Copy, PartialEq)]
pub struct AzLogicalSize {
    pub width: AzFloatValue,
    pub height: AzFloatValue,
}

#[derive(Debug, Clone, Copy, PartialEq)]
pub struct AzLogicalRect {
    pub origin: AzLogicalPosition,
    pub size: AzLogicalSize,
}

#[derive(Debug, Clone, Copy, PartialEq)]
pub struct AzImageMask {
    pub image: AzImageId,
    pub rect: AzLogicalRect,
    pub repeat: bool,
}

#[derive(Debug, Clone, Copy, PartialEq, Eq, Structural)]
pub enum AzTabIndex {
    Auto,
    OverrideInParent(u32),
    NoKeyboardFocus,
}

impl Default for AzTabIndex {
    fn default() -> (r: AzTabIndex)
        ensures
            r == AzTabIndex::Auto,
    {
        AzTabIndex::Auto
    }
}

#[derive(Debug, Clone, Copy, PartialEq, Eq, Structural)]
pub enum AzHoverEventFilter {
    MouseOver,
    MouseDown,
    LeftMouseDown,
    RightMouseDown,
    MiddleMouseDown,
    MouseUp,
    LeftMouseUp,
    RightMouseUp,
    MiddleMouseUp,
    MouseEnter,
    MouseLeave,
    Scroll,
    ScrollStart,
    ScrollEnd,
    TextInput,
    VirtualKeyDown,
    VirtualKeyUp,
    HoveredFile,
    DroppedFile,
    HoveredFileCancelled,
    TouchStart,
    TouchMove,
    TouchEnd,
    TouchCancel,
}

#[derive(Debug, Clone, Copy, PartialEq, Eq, Structural)]
pub enum AzFocusEventFilter {
    MouseOver,
    MouseDown,
    LeftMouseDown,
    RightMouseDown,
    MiddleMouseDown,
    MouseUp,
    LeftMouseUp,
    RightMouseUp,
    MiddleMouseUp,
    MouseEnter,
    MouseLeave,
    Scroll,
    ScrollStart,
    ScrollEnd,
    TextInput,
    VirtualKeyDown,
    VirtualKeyUp,
    FocusReceived,
    FocusLost,
}

#[derive(Debug, Clone, Copy, PartialEq, Eq, Structural)]
pub enum AzNotEventFilter {
    Hover(AzHoverEventFilter),
    Focus(AzFocusEventFilter),
}

#[derive(Debug, Clone, Copy, PartialEq, Eq, Structural)]
pub enum AzWindowEventFilter {
    MouseOver,
    MouseDown,
    LeftMouseDown,
    RightMouseDown,
    MiddleMouseDown,
    MouseUp,
    LeftMouseUp,
    RightMouseUp,
    MiddleMouseUp,
    MouseEnter,
    MouseLeave,
    Scroll,
    ScrollStart,
    ScrollEnd,
    TextInput,
    VirtualKeyDown,
    VirtualKeyUp,
    HoveredFile,
    DroppedFile,
    HoveredFileCancelled,
    Resized,
    Moved,
    TouchStart,
    TouchMove,
    TouchEnd,
    TouchCancel,
    FocusReceived,
    FocusLost,
    CloseRequested,
    ThemeChanged,
}

#[derive(Debug, Clone, Copy, PartialEq, Eq, Structural)]
pub enum AzComponentEventFilter {
    AfterMount,
    BeforeUnmount,
    NodeResized,
}

#[derive(Debug, Clone, Copy, PartialEq, Eq, Structural)]
pub enum AzApplicationEventFilter {
    DeviceConnected,
    DeviceDisconnected,
}

#[derive(Debug, Clone, Copy, PartialEq, Eq, Structural)]
pub enum AzEventFilter {
    Hover(AzHoverEventFilter),
    Not(AzNotEventFilter),
    Focus(AzFocusEventFilter),
    Window(AzWindowEventFilter),
    Component(AzComponentEventFilter),
    Application(AzApplicationEventFilter),
}

/// The event shorthands a caller attaches callbacks with.
#[derive(Debug, Clone, Copy, PartialEq, Eq, Structural)]
pub enum AzOn {
    MouseOver,
    MouseDown,
    LeftMouseDown,
    MiddleMouseDown,
    RightMouseDown,
    MouseUp,
    LeftMouseUp,
    MiddleMouseUp,
    RightMouseUp,
    MouseEnter,
    MouseLeave,
    Scroll,
    TextInput,
    VirtualKeyDown,
    VirtualKeyUp,
    HoveredFile,
    DroppedFile,
    HoveredFileCancelled,
    FocusReceived,
    FocusLost,
}

#[derive(Debug, PartialEq)]
pub enum AzIdOrClass {
    Id(AzString),
    Class(AzString),
}

#[derive(Debug, PartialEq)]
pub enum AzNodeDataInlineCssProperty {
    Normal(AzCssProperty),
    Active(AzCssProperty),
    Focus(AzCssProperty),
    Hover(AzCssProperty),
}

/// One callback registration: which event, which foreign function, and the
/// erased data handle handed to it.
#[derive(Debug)]
pub struct AzCallbackData {
    pub event: AzEventFilter,
    pub callback: AzCallback,
    pub data: AzRefAny,
}

/// A node rendering an embedded frame: its callback token and its erased
/// data handle.
#[derive(Debug)]
pub struct AzIFrameNode {
    pub callback: AzIFrameCallback,
    pub data: AzRefAny,
}

/// A node rendering a foreign texture: its callback token and its erased
/// data handle.
#[derive(Debug)]
pub struct AzGlTextureNode {
    pub callback: AzGlCallback,
    pub data: AzRefAny,
}

#[derive(Debug)]
pub enum AzNodeType {
    Div,
    Body,
    Br,
    Label(AzString),
    Image(AzImageId),
    IFrame(AzIFrameNode),
    GlTexture(AzGlTextureNode),
}

pub type AzIdOrClassVec = Vector<AzIdOrClass>;

pub type AzCallbackDataVec = Vector<AzCallbackData>;

pub type AzNodeDataInlineCssPropertyVec = Vector<AzNodeDataInlineCssProperty>;


pub type AzIdOrClassVecDestructor = VectorDestructor;

pub type AzCallbackDataVecDestructor = VectorDestructor;

pub type AzNodeDataInlineCssPropertyVecDestructor = VectorDestructor;

pub type AzDomVecDestructor = VectorDestructor;

/// The dynamic array of child trees.  The element type is recursive with
/// [`AzDom`], so this vector is its own concrete type — the one knot the
/// generic [`Vector`] cannot tie — with the same fields and the same
/// ownership rules.
#[derive(Debug)]
pub struct AzDomVec {
    pub data: Vec<AzDom>,
    pub ptr: usize,
    pub destructor: VectorDestructor,
}

impl AzDomVec {
    /// Whether this vector is responsible for freeing its buffer.
    pub open spec fn owns_buffer(self) -> bool {
        !(self.destructor is NoDestructor)
    }

    pub open spec fn wf_in(self, h: BufferHeap) -> bool {
        self.owns_buffer() ==> h.live_at(self.ptr as int)
    }

    /// Takes ownership of a native vector of trees; the buffer gets a fresh
    /// address and an external destructor token.
    pub fn from_vec(data: Vec<AzDom>, heap: &mut BufferHeap) -> (r: AzDomVec)
        requires
            old(heap).wf(),
            old(heap).alloc_count() < max_buffers(),
        ensures
            final(heap).wf(),
            r.data == data,
            r.destructor == VectorDestructor::External(crate::vector::LIBRARY_RECLAIM),
            r.ptr == old(heap).alloc_count(),
            r.wf_in(*final(heap)),
            final(heap).live_table() == old(heap).live_table().push(true),
            final(heap).free_count() == old(heap).free_count(),
    {
        let ptr = heap.allocate();
        AzDomVec { data, ptr, destructor: VectorDestructor::External(crate::vector::LIBRARY_RECLAIM) }
    }

    /// Wraps a buffer that belongs to somebody else; never freed by this
    /// library.
    pub fn from_const_slice(data: Vec<AzDom>) -> (r: AzDomVec)
        ensures
            r.data == data,
            r.destructor == VectorDestructor::NoDestructor,
            !r.owns_buffer(),
    {
        AzDomVec { data, ptr: crate::vector::CONST_BUFFER_PTR, destructor: VectorDestructor::NoDestructor }
    }

    pub fn len(&self) -> (r: usize)
        ensures
            r == self.data@.len(),
    {
        self.data.len()
    }

    pub fn is_empty(&self) -> (r: bool)
        ensures
            r == (self.data@.len() == 0),
    {
        self.data.len() == 0
    }

    pub fn ptr_as_usize(&self) -> (r: usize)
        ensures
            r == self.ptr,
    {
        self.ptr
    }

    /// An out-of-range index is answered with nothing, never with a panic.
    pub fn get(&self, index: usize) -> (r: Option<&AzDom>)
        ensures
            index < self.data@.len() ==> (match r {
                Option::Some(v) => *v == self.data@[index as int],
                Option::None => false,
            }),
            index >= self.data@.len() ==> r is None,
    {
        if index < self.data.len() {
            Option::Some(&self.data[index])
        } else {
            Option::None
        }
    }

    pub fn as_slice(&self) -> (r: &[AzDom])
        ensures
            r@ == self.data@,
    {
        self.data.as_slice()
    }

    /// Consults the ownership tag, exactly once.
    pub fn delete(self, heap: &mut BufferHeap)
        requires
            old(heap).wf(),
            self.wf_in(*old(heap)),
        ensures
            final(heap).wf(),
            !self.owns_buffer() ==> *final(heap) == *old(heap),
            self.owns_buffer() ==> {
                &&& final(heap).live_table() == old(heap).live_table().update(
                    self.ptr as int,
                    false,
                )
                &&& final(heap).free_count() == old(heap).free_count() + 1
            },
    {
        match self.destructor {
            VectorDestructor::NoDestructor => {},
            VectorDestructor::DefaultRust => heap.free(self.ptr),
            VectorDestructor::External(_) => heap.free(self.ptr),
        }
    }
}

pub type AzOptionRefAny = FfiOption<AzRefAny>;

pub type AzOptionImageMask = FfiOption<AzImageMask>;

pub type AzOptionTabIndex = FfiOption<AzTabIndex>;

/// One node of the document tree: its kind, and everything hung onto it.
#[derive(Debug)]
pub struct AzNodeData {
    pub node_type: AzNodeType,
    pub dataset: AzOptionRefAny,
    pub ids_and_classes: AzIdOrClassVec,
    pub callbacks: AzCallbackDataVec,
    pub inline_css_props: AzNodeDataInlineCssPropertyVec,
    pub clip_mask: AzOptionImageMask,
    pub tab_index: AzOptionTabIndex,
}

/// A document tree: a root node, its child trees, and a cached estimate of
/// the total number of descendants.
#[derive(Debug)]
pub struct AzDom {
    pub root: AzNodeData,
    pub children: AzDomVec,
    pub estimated_total_children: usize,
}

/// A vector that was made over an empty constant buffer.
pub open spec fn is_empty_const_vec<T>(v: Vector<T>) -> bool {
    &&& v.data@.len() == 0
    &&& v.destructor is NoDestructor
}

/// A child-tree vector that was made over an empty constant buffer.
pub open spec fn is_empty_const_dom_vec(v: AzDomVec) -> bool {
    &&& v.data@.len() == 0
    &&& v.destructor is NoDestructor
}

/// A node as [`NodeData::new`] makes it: the given kind, and nothing hung
/// onto it.
pub open spec fn spec_fresh_node(n: AzNodeData, node_type: AzNodeType) -> bool {
    &&& n.node_type == node_type
    &&& n.dataset is Absent
    &&& is_empty_const_vec(n.ids_and_classes)
    &&& is_empty_const_vec(n.callbacks)
    &&& is_empty_const_vec(n.inline_css_props)
    &&& n.clip_mask is Absent
    &&& n.tab_index is Absent
}

/// The number of nodes in all the trees of `s`, each tree counted by its
/// cached estimate plus one for its root.
pub open spec fn spec_total_children(s: Seq<AzDom>) -> nat
    decreases s.len(),
{
    if s.len() == 0 {
        0
    } else {
        (spec_total_children(s.drop_last()) + s.last().estimated_total_children + 1) as nat
    }
}

proof fn lemma_total_children_take_step(s: Seq<AzDom>, i: int)
    requires
        0 <= i < s.len(),
    ensures
        spec_total_children(s.take(i + 1)) == spec_total_children(s.take(i))
            + s[i].estimated_total_children + 1,
{
    assert(s.take(i + 1).drop_last() =~= s.take(i));
    assert(s.take(i + 1).last() == s[i]);
}

proof fn lemma_total_children_take_le(s: Seq<AzDom>, i: int)
    requires
        0 <= i <= s.len(),
    ensures
        spec_total_children(s.take(i)) <= spec_total_children(s),
    decreases s.len() - i,
{
    if i == s.len() {
        assert(s.take(i) =~= s);
    } else {
        lemma_total_children_take_step(s, i);
        lemma_total_children_take_le(s, i + 1);
    }
}

impl NodeData {
    /// A fresh node of the given kind, with nothing hung onto it and no
    /// allocation made.
    pub fn new(node_type: AzNodeType) -> (r: AzNodeData)
        ensures
            spec_fresh_node(r, node_type),
    {
        AzNodeData {
            node_type,
            dataset: FfiOption::Absent,
            ids_and_classes: Vector::from_const_slice(Vec::new()),
            callbacks: Vector::from_const_slice(Vec::new()),
            inline_css_props: Vector::from_const_slice(Vec::new()),
            clip_mask: FfiOption::Absent,
            tab_index: FfiOption::Absent,
        }
    }

    pub fn body() -> (r: AzNodeData)
        ensures
            spec_fresh_node(r, AzNodeType::Body),
    {
        NodeData::new(AzNodeType::Body)
    }

    pub fn div() -> (r: AzNodeData)
        ensures
            spec_fresh_node(r, AzNodeType::Div),
    {
        NodeData::new(AzNodeType::Div)
    }

    pub fn br() -> (r: AzNodeData)
        ensures
            spec_fresh_node(r, AzNodeType::Br),
    {
        NodeData::new(AzNodeType::Br)
    }

    pub fn const_default() -> (r: AzNodeData)
        ensures
            spec_fresh_node(r, AzNodeType::Div),
    {
        NodeData::div()
    }

    pub fn label(value: AzString) -> (r: AzNodeData)
        ensures
            spec_fresh_node(r, AzNodeType::Label(value)),
    {
        NodeData::new(AzNodeType::Label(value))
    }

    pub fn image(image: AzImageId) -> (r: AzNodeData)
        ensures
            spec_fresh_node(r, AzNodeType::Image(image)),
    {
        NodeData::new(AzNodeType::Image(image))
    }

    pub fn gl_texture(data: AzRefAny, callback: AzGlCallbackType) -> (r: AzNodeData)
        ensures
            spec_fresh_node(
                r,
                AzNodeType::GlTexture(
                    AzGlTextureNode { callback: AzGlCallback { cb: callback }, data },
                ),
            ),
    {
        NodeData::new(
            AzNodeType::GlTexture(AzGlTextureNode { callback: AzGlCallback { cb: callback }, data }),
        )
    }

    pub fn iframe(data: AzRefAny, callback: AzIFrameCallbackType) -> (r: AzNodeData)
        ensures
            spec_fresh_node(
                r,
                AzNodeType::IFrame(
                    AzIFrameNode { callback: AzIFrameCallback { cb: callback }, data },
                ),
            ),
    {
        NodeData::new(
            AzNodeType::IFrame(AzIFrameNode { callback: AzIFrameCallback { cb: callback }, data }),
        )
    }

    pub fn get_node_type(&self) -> (r: &AzNodeType)
        ensures
            r == &self.node_type,
    {
        &self.node_type
    }

    pub fn get_dataset(&self) -> (r: &AzOptionRefAny)
        ensures
            r == &self.dataset,
    {
        &self.dataset
    }

    pub fn get_ids_and_classes(&self) -> (r: &AzIdOrClassVec)
        ensures
            r == &self.ids_and_classes,
    {
        &self.ids_and_classes
    }

    pub fn get_callbacks(&self) -> (r: &AzCallbackDataVec)
        ensures
            r == &self.callbacks,
    {
        &self.callbacks
    }

    pub fn get_inline_css_props(&self) -> (r: &AzNodeDataInlineCssPropertyVec)
        ensures
            r == &self.inline_css_props,
    {
        &self.inline_css_props
    }

    pub fn get_clip_mask(&self) -> (r: &AzOptionImageMask)
        ensures
            r == &self.clip_mask,
    {
        &self.clip_mask
    }

    pub fn get_tab_index(&self) -> (r: AzOptionTabIndex)
        ensures
            r == self.tab_index,
    {
        self.tab_index
    }

    pub fn set_node_type(&mut self, node_type: AzNodeType)
        ensures
            *final(self) == (AzNodeData { node_type, ..*old(self) }),
    {
        self.node_type = node_type;
    }

    pub fn set_dataset(&mut self, data: AzOptionRefAny)
        ensures
            *final(self) == (AzNodeData { dataset: data, ..*old(self) }),
    {
        self.dataset = data;
    }

    pub fn set_ids_and_classes(&mut self, ids_and_classes: AzIdOrClassVec)
        ensures
            *final(self) == (AzNodeData { ids_and_classes, ..*old(self) }),
    {
        self.ids_and_classes = ids_and_classes;
    }

    pub fn set_callbacks(&mut self, callbacks: AzCallbackDataVec)
        ensures
            *final(self) == (AzNodeData { callbacks, ..*old(self) }),
    {
        self.callbacks = callbacks;
    }

    pub fn set_inline_css_props(&mut self, inline_css_props: AzNodeDataInlineCssPropertyVec)
        ensures
            *final(self) == (AzNodeData { inline_css_props, ..*old(self) }),
    {
        self.inline_css_props = inline_css_props;
    }

    pub fn set_clip_mask(&mut self, clip_mask: AzOptionImageMask)
        ensures
            *final(self) == (AzNodeData { clip_mask, ..*old(self) }),
    {
        self.clip_mask = clip_mask;
    }

    pub fn set_tab_index(&mut self, tab_index: AzOptionTabIndex)
        ensures
            *final(self) == (AzNodeData { tab_index, ..*old(self) }),
    {
        self.tab_index = tab_index;
    }

    pub fn with_node_type(self, node_type: AzNodeType) -> (r: AzNodeData)
        ensures
            r == (AzNodeData { node_type, ..self }),
    {
        AzNodeData { node_type, ..self }
    }

    pub fn with_dataset(self, data: AzOptionRefAny) -> (r: AzNodeData)
        ensures
            r == (AzNodeData { dataset: data, ..self }),
    {
        AzNodeData { dataset: data, ..self }
    }

    pub fn with_ids_and_classes(self, ids_and_classes: AzIdOrClassVec) -> (r: AzNodeData)
        ensures
            r == (AzNodeData { ids_and_classes, ..self }),
    {
        AzNodeData { ids_and_classes, ..self }
    }

    pub fn with_callbacks(self, callbacks: AzCallbackDataVec) -> (r: AzNodeData)
        ensures
            r == (AzNodeData { callbacks, ..self }),
    {
        AzNodeData { callbacks, ..self }
    }

    pub fn with_inline_css_props(self, inline_css_props: AzNodeDataInlineCssPropertyVec) -> (r:
        AzNodeData)
        ensures
            r == (AzNodeData { inline_css_props, ..self }),
    {
        AzNodeData { inline_css_props, ..self }
    }

    pub fn with_clip_mask(self, clip_mask: AzOptionImageMask) -> (r: AzNodeData)
        ensures
            r == (AzNodeData { clip_mask, ..self }),
    {
        AzNodeData { clip_mask, ..self }
    }

    pub fn with_tab_index(self, tab_index: AzOptionTabIndex) -> (r: AzNodeData)
        ensures
            r == (AzNodeData { tab_index, ..self }),
    {
        AzNodeData { tab_index, ..self }
    }
}

impl Dom {
    /// An empty tree whose root has the given kind.  No allocation is made
    /// until a child is added.
    pub fn new(node_type: AzNodeType) -> (r: AzDom)
        ensures
            spec_fresh_node(r.root, node_type),
            is_empty_const_dom_vec(r.children),
            r.estimated_total_children == 0,
    {
        AzDom {
            root: NodeData::new(node_type),
            children: AzDomVec::from_const_slice(Vec::new()),
            estimated_total_children: 0,
        }
    }

    pub fn div() -> (r: AzDom)
        ensures
            spec_fresh_node(r.root, AzNodeType::Div),
            is_empty_const_dom_vec(r.children),
            r.estimated_total_children == 0,
    {
        Dom::new(AzNodeType::Div)
    }

    pub fn body() -> (r: AzDom)
        ensures
            spec_fresh_node(r.root, AzNodeType::Body),
            is_empty_const_dom_vec(r.children),
            r.estimated_total_children == 0,
    {
        Dom::new(AzNodeType::Body)
    }

    pub fn br() -> (r: AzDom)
        ensures
            spec_fresh_node(r.root, AzNodeType::Br),
            is_empty_const_dom_vec(r.children),
            r.estimated_total_children == 0,
    {
        Dom::new(AzNodeType::Br)
    }

    pub fn label(value: AzString) -> (r: AzDom)
        ensures
            spec_fresh_node(r.root, AzNodeType::Label(value)),
            is_empty_const_dom_vec(r.children),
            r.estimated_total_children == 0,
    {
        Dom::new(AzNodeType::Label(value))
    }

    pub fn image(image: AzImageId) -> (r: AzDom)
        ensures
            spec_fresh_node(r.root, AzNodeType::Image(image)),
            is_empty_const_dom_vec(r.children),
            r.estimated_total_children == 0,
    {
        Dom::new(AzNodeType::Image(image))
    }

    pub fn gl_texture(data: AzRefAny, callback: AzGlCallbackType) -> (r: AzDom)
        ensures
            spec_fresh_node(
                r.root,
                AzNodeType::GlTexture(
                    AzGlTextureNode { callback: AzGlCallback { cb: callback }, data },
                ),
            ),
            is_empty_const_dom_vec(r.children),
            r.estimated_total_children == 0,
    {
        Dom::new(
            AzNodeType::GlTexture(AzGlTextureNode { callback: AzGlCallback { cb: callback }, data }),
        )
    }

    pub fn iframe(data: AzRefAny, callback: AzIFrameCallbackType) -> (r: AzDom)
        ensures
            spec_fresh_node(
                r.root,
                AzNodeType::IFrame(
                    AzIFrameNode { callback: AzIFrameCallback { cb: callback }, data },
                ),
            ),
            is_empty_const_dom_vec(r.children),
            r.estimated_total_children == 0,
    {
        Dom::new(AzNodeType::IFrame(AzIFrameNode { callback: AzIFrameCallback { cb: callback }, data }))
    }

    pub fn const_default() -> (r: AzDom)
        ensures
            spec_fresh_node(r.root, AzNodeType::Div),
            is_empty_const_dom_vec(r.children),
            r.estimated_total_children == 0,
    {
        Dom::div()
    }

    pub fn set_dataset(&mut self, data: AzRefAny)
        ensures
            *final(self) == (AzDom {
                root: AzNodeData { dataset: FfiOption::Present(data), ..old(self).root },
                ..*old(self)
            }),
    {
        self.root.set_dataset(FfiOption::Present(data));
    }

    pub fn set_ids_and_classes(&mut self, ids: AzIdOrClassVec)
        ensures
            *final(self) == (AzDom {
                root: AzNodeData { ids_and_classes: ids, ..old(self).root },
                ..*old(self)
            }),
    {
        self.root.set_ids_and_classes(ids);
    }

    pub fn set_inline_css_props(&mut self, properties: AzNodeDataInlineCssPropertyVec)
        ensures
            *final(self) == (AzDom {
                root: AzNodeData { inline_css_props: properties, ..old(self).root },
                ..*old(self)
            }),
    {
        self.root.set_inline_css_props(properties);
    }

    pub fn set_callbacks(&mut self, callbacks: AzCallbackDataVec)
        ensures
            *final(self) == (AzDom {
                root: AzNodeData { callbacks, ..old(self).root },
                ..*old(self)
            }),
    {
        self.root.set_callbacks(callbacks);
    }

    pub fn set_clip_mask(&mut self, clip_mask: AzOptionImageMask)
        ensures
            *final(self) == (AzDom {
                root: AzNodeData { clip_mask, ..old(self).root },
                ..*old(self)
            }),
    {
        self.root.set_clip_mask(clip_mask);
    }

    pub fn set_tab_index(&mut self, tab_index: AzOptionTabIndex)
        ensures
            *final(self) == (AzDom {
                root: AzNodeData { tab_index, ..old(self).root },
                ..*old(self)
            }),
    {
        self.root.set_tab_index(tab_index);
    }

    /// Replaces the children and recomputes the descendant estimate from
    /// their cached estimates.
    pub fn set_children(&mut self, children: AzDomVec)
        requires
            spec_total_children(children.data@) <= usize::MAX,
        ensures
            final(self).root == old(self).root,
            final(self).children == children,
            final(self).estimated_total_children == spec_total_children(children.data@),
    {
        let ghost full = children.data@;
        let mut estimated_total_children: usize = 0;
        let n = children.len();
        let mut i: usize = 0;
        while i < n
            invariant
                n == full.len(),
                0 <= i <= n,
                children.data@ == full,
                spec_total_children(full) <= usize::MAX,
                estimated_total_children == spec_total_children(full.take(i as int)),
            decreases n - i,
        {
            proof {
                lemma_total_children_take_step(full, i as int);
                lemma_total_children_take_le(full, i as int + 1);
            }
            let c: &AzDom = &children.data[i];
            estimated_total_children = estimated_total_children + c.estimated_total_children + 1;
            i = i + 1;
        }
        proof {
            assert(full.take(n as int) =~= full);
        }
        self.estimated_total_children = estimated_total_children;
        self.children = children;
    }

    pub fn with_dataset(self, data: AzRefAny) -> (r: AzDom)
        ensures
            r == (AzDom {
                root: AzNodeData { dataset: FfiOption::Present(data), ..self.root },
                ..self
            }),
    {
        let mut s = self;
        s.set_dataset(data);
        s
    }

    pub fn with_ids_and_classes(self, ids: AzIdOrClassVec) -> (r: AzDom)
        ensures
            r == (AzDom { root: AzNodeData { ids_and_classes: ids, ..self.root }, ..self }),
    {
        let mut s = self;
        s.set_ids_and_classes(ids);
        s
    }

    pub fn with_inline_css_props(self, properties: AzNodeDataInlineCssPropertyVec) -> (r: AzDom)
        ensures
            r == (AzDom {
                root: AzNodeData { inline_css_props: properties, ..self.root },
                ..self
            }),
    {
        let mut s = self;
        s.set_inline_css_props(properties);
        s
    }

    pub fn with_callbacks(self, callbacks: AzCallbackDataVec) -> (r: AzDom)
        ensures
            r == (AzDom { root: AzNodeData { callbacks, ..self.root }, ..self }),
    {
        let mut s = self;
        s.set_callbacks(callbacks);
        s
    }

    pub fn with_children(self, children: AzDomVec) -> (r: AzDom)
        requires
            spec_total_children(children.data@) <= usize::MAX,
        ensures
            r.root == self.root,
            r.children == children,
            r.estimated_total_children == spec_total_children(children.data@),
    {
        let mut s = self;
        s.set_children(children);
        s
    }

    pub fn with_clip_mask(self, clip_mask: AzOptionImageMask) -> (r: AzDom)
        ensures
            r == (AzDom { root: AzNodeData { clip_mask, ..self.root }, ..self }),
    {
        let mut s = self;
        s.set_clip_mask(clip_mask);
        s
    }

    pub fn with_tab_index(self, tab_index: AzOptionTabIndex) -> (r: AzDom)
        ensures
            r == (AzDom { root: AzNodeData { tab_index, ..self.root }, ..self }),
    {
        let mut s = self;
        s.set_tab_index(tab_index);
        s
    }

    /// Collects child trees into one tree under a fresh division root,
    /// taking ownership of their buffer.
    pub fn from_iter(children: Vec<AzDom>, heap: &mut BufferHeap) -> (r: AzDom)
        requires
            old(heap).wf(),
            old(heap).alloc_count() < max_buffers(),
            spec_total_children(children@) <= usize::MAX,
        ensures
            final(heap).wf(),
            spec_fresh_node(r.root, AzNodeType::Div),
            r.children.data@ == children@,
            r.children.owns_buffer(),
            r.estimated_total_children == spec_total_children(children@),
    {
        let vec: AzDomVec = AzDomVec::from_vec(children, heap);
        let mut dom = Dom::div();
        dom.set_children(vec);
        dom
    }
}

} // verus!
