//! Triangle surfaces: the vertex-array state of a mesh on the GPU, and the
//! draw call that renders it.
//!
//! The GPU is the caller's. Building a surface takes the closures that
//! allocate and fill; rendering returns the commands to issue. Which vertex
//! array is bound is tracked in a value that the caller keeps, so that a bind
//! is asked for only where it changes something.

use vstd::prelude::*;
use crate::context::CoreError;
use crate::mesh::{attribute_names, find_named, is_first_invalid, is_first_named, Attribute, CPUMesh};

verus! {

/// Why a surface could not be built.
#[derive(Debug)]
pub enum Error {
    /// A buffer could not be created or filled.
    Buffer(CoreError),
    /// The program and the attributes of the mesh do not fit together.
    Program(CoreError),
    /// The mesh breaks a rule of its own layout.
    Mesh(CoreError),
}

/// The vertex array that is bound on the GPU, as far as this library asked
/// for it.
pub struct VertexArrayBinding {
    current: u32,
}

/// The name that stands for no vertex array.
pub const NO_VERTEX_ARRAY: u32 = 0xffff_ffff;

impl VertexArrayBinding {
    /// The name of the bound vertex array.
    pub closed spec fn current(self) -> u32 {
        self.current
    }

    /// A tracker for a GPU on which nothing is bound yet.
    pub fn new() -> (binding: Self)
        ensures
            binding.current() == NO_VERTEX_ARRAY,
    {
        VertexArrayBinding { current: NO_VERTEX_ARRAY }
    }

    /// The name of the bound vertex array.
    pub fn bound(&self) -> (id: u32)
        ensures
            id == self.current(),
    {
        self.current
    }
}

/// Makes `id` the bound vertex array. Returns the name to bind on the GPU, or
/// nothing where that vertex array is bound already.
pub fn bind(binding: &mut VertexArrayBinding, id: u32) -> (call: Option<u32>)
    ensures
        final(binding).current() == id,
        call == if old(binding).current() == id {
            None
        } else {
            Some(id)
        },
{
    if id != binding.current {
        binding.current = id;
        Some(id)
    } else {
        None
    }
}

/// One draw call for opaque triangles.
#[derive(Clone, Copy, Debug, PartialEq, Eq, Structural)]
pub enum DrawCall {
    /// Draw `count` indices of the bound index buffer, which holds unsigned
    /// 32-bit numbers, from its start.
    Elements { count: i32 },
    /// Draw `count` vertices in a row, starting with the vertex `first`.
    Arrays { first: i32, count: i32 },
}

impl DrawCall {
    /// The number of elements that the call covers.
    pub open spec fn spec_count(&self) -> i32 {
        match *self {
            DrawCall::Elements { count } => count,
            DrawCall::Arrays { count, .. } => count,
        }
    }

    /// The number of elements that the call covers.
    #[verifier::when_used_as_spec(spec_count)]
    pub fn count(&self) -> (n: i32)
        ensures
            n == self.spec_count(),
    {
        match self {
            DrawCall::Elements { count } => *count,
            DrawCall::Arrays { count, .. } => *count,
        }
    }

    /// The number of whole triangles that the call draws: a third of its
    /// elements, and none where the count is negative.
    pub fn triangles(&self) -> (n: i32)
        ensures
            n == if self.spec_count() < 0 {
                0
            } else {
                self.spec_count() as int / 3
            },
    {
        let count = self.count();
        if count < 0 {
            0
        } else {
            count / 3
        }
    }
}

/// What rendering a surface asks of the GPU, in this order.
#[derive(Clone, Copy, Debug, PartialEq, Eq, Structural)]
pub struct RenderCommands {
    /// The vertex array to bind first, where another one is bound.
    pub bind: Option<u32>,
    /// The draw call.
    pub draw: DrawCall,
}

/// Where the numbers of one attribute lie in a vertex buffer that holds the
/// attributes of each vertex side by side.
#[derive(Debug)]
pub struct AttributeSlot {
    /// The name under which the program declares the attribute.
    pub name: String,
    /// The number of components for each vertex.
    pub no_components: usize,
    /// The number of components of the same vertex that lie before it.
    pub offset: usize,
}

/// The number of components that the attributes before `place` have together.
pub open spec fn components_before(attributes: Seq<Attribute>, place: int) -> int
    decreases place,
{
    if place <= 0 {
        0
    } else {
        components_before(attributes, place - 1) + attributes[place - 1].no_components
    }
}

/// The number of components of one vertex: the distance, in components, from
/// one vertex to the next.
pub open spec fn stride(attributes: Seq<Attribute>) -> int {
    components_before(attributes, attributes.len() as int)
}

/// Whether `slot` says where the attribute that a program declares as
/// `declared` lies: at the first attribute of that name.
pub open spec fn slot_resolves(
    attributes: Seq<Attribute>,
    declared: Seq<char>,
    slot: AttributeSlot,
) -> bool {
    exists|place: int|
        {
            &&& #[trigger] is_first_named(attributes, declared, place)
            &&& slot.name@ == declared
            &&& slot.no_components == attributes[place].no_components
            &&& slot.offset == components_before(attributes, place)
        }
}

/// Whether `slots` has the slot of each declared attribute, in the order of
/// the declarations.
pub open spec fn slots_resolve(
    attributes: Seq<Attribute>,
    declared: Seq<String>,
    slots: Seq<AttributeSlot>,
) -> bool {
    &&& slots.len() == declared.len()
    &&& forall|k: int|
        0 <= k < declared.len() ==> slot_resolves(attributes, declared[k]@, #[trigger] slots[k])
}

/// Whether `place` is the place of the first declared attribute that the
/// mesh does not have.
pub open spec fn is_first_missing(
    attributes: Seq<Attribute>,
    declared: Seq<String>,
    place: int,
) -> bool {
    &&& 0 <= place < declared.len()
    &&& !attribute_names(attributes).contains(declared[place]@)
    &&& forall|k: int|
        0 <= k < place ==> attribute_names(attributes).contains(
            (#[trigger] declared[k])@,
        )
}

/// Whether the mesh has every attribute that the program declares.
pub open spec fn all_declared_present(attributes: Seq<Attribute>, declared: Seq<String>) -> bool {
    forall|k: int|
        0 <= k < declared.len() ==> attribute_names(attributes).contains(
            (#[trigger] declared[k])@,
        )
}

/// The attributes before a place have no more components than all together.
pub proof fn lemma_components_grow(attributes: Seq<Attribute>, place: int, later: int)
    requires
        0 <= place <= later,
    ensures
        0 <= components_before(attributes, place) <= components_before(attributes, later),
    decreases later,
{
    if place < later {
        lemma_components_grow(attributes, place, later - 1);
    } else if place > 0 {
        lemma_components_grow(attributes, place - 1, later - 1);
    }
}

/// The number of components before each attribute, and after the last.
fn offsets(attributes: &Vec<Attribute>) -> (sums: Vec<usize>)
    requires
        stride(attributes@) <= usize::MAX,
    ensures
        sums@.len() == attributes@.len() + 1,
        forall|i: int|
            0 <= i <= attributes@.len() ==> (#[trigger] sums@[i]) == components_before(
                attributes@,
                i,
            ),
{
    let mut sums: Vec<usize> = Vec::new();
    sums.push(0);
    let mut total: usize = 0;
    let mut i: usize = 0;
    while i < attributes.len()
        invariant
            i <= attributes@.len(),
            stride(attributes@) <= usize::MAX,
            total == components_before(attributes@, i as int),
            sums@.len() == i + 1,
            forall|j: int| 0 <= j <= i ==> (#[trigger] sums@[j]) == components_before(attributes@, j),
        decreases attributes.len() - i,
    {
        proof {
            lemma_components_grow(attributes@, i as int + 1, attributes@.len() as int);
        }
        total = total + attributes[i].no_components;
        sums.push(total);
        i += 1;
    }
    sums
}

/// Finds, for each attribute that a program declares, where it lies among
/// the attributes of a mesh laid side by side. The first declared attribute
/// that the mesh does not have is reported as a missing buffer.
pub fn resolve_attributes(attributes: &Vec<Attribute>, declared: &Vec<String>) -> (res: Result<
    Vec<AttributeSlot>,
    Error,
>)
    requires
        stride(attributes@) <= usize::MAX,
    ensures
        res is Ok <==> all_declared_present(attributes@, declared@),
        match res {
            Ok(slots) => slots_resolve(attributes@, declared@, slots@),
            Err(failure) => reports_missing(attributes@, declared@, failure),
        },
{
    let sums = offsets(attributes);
    let mut slots: Vec<AttributeSlot> = Vec::new();
    let mut k: usize = 0;
    while k < declared.len()
        invariant
            k <= declared@.len(),
            slots@.len() == k,
            sums@.len() == attributes@.len() + 1,
            forall|i: int|
                0 <= i <= attributes@.len() ==> (#[trigger] sums@[i]) == components_before(
                    attributes@,
                    i,
                ),
            forall|j: int|
                0 <= j < k ==> attribute_names(attributes@).contains((#[trigger] declared@[j])@),
            forall|j: int|
                0 <= j < k ==> slot_resolves(attributes@, declared@[j]@, #[trigger] slots@[j]),
        decreases declared.len() - k,
    {
        match find_named(attributes, declared[k].as_str()) {
            Some(place) => {
                let slot = AttributeSlot {
                    name: declared[k].clone(),
                    no_components: attributes[place].no_components,
                    offset: sums[place],
                };
                assert(is_first_named(attributes@, declared@[k as int]@, place as int));
                slots.push(slot);
            },
            None => {
                assert(is_first_missing(attributes@, declared@, k as int));
                return Err(Error::Program(CoreError::MissingMeshBuffer(declared[k].clone())));
            },
        }
        k += 1;
    }
    Ok(slots)
}

/// Whether `failure` reports the first declared attribute that the mesh does
/// not have.
pub open spec fn reports_missing(
    attributes: Seq<Attribute>,
    declared: Seq<String>,
    failure: Error,
) -> bool {
    match failure {
        Error::Program(CoreError::MissingMeshBuffer(name)) => exists|place: int|
            #[trigger] is_first_missing(attributes, declared, place) && name@ == declared[place]@,
        _ => false,
    }
}

/// The vertex-array state of one mesh.
pub struct TriangleSurface {
    id: u32,
    count: usize,
    indexed: bool,
}

/// What a vertex-array allocation can return.
pub open spec fn allocations<A: FnOnce() -> u32>(gen_vertex_array: A) -> spec_fn(u32) -> bool {
    |id: u32| call_ensures(gen_vertex_array, (), id)
}

/// What filling an index buffer can return for the given index list. Without
/// a list nothing is filled.
pub open spec fn fillings<I: FnOnce(&Vec<u32>) -> Result<(), CoreError>>(
    fill_element_buffer: I,
    indices: Option<Vec<u32>>,
) -> spec_fn(Result<(), CoreError>) -> bool {
    |filled: Result<(), CoreError>|
        match indices {
            Some(list) => call_ensures(fill_element_buffer, (&list,), filled),
            None => false,
        }
}

/// Whether `failure` is what the validation of `mesh` reports: the first
/// index that names no vertex, with the largest index that would name one.
pub open spec fn reports_invalid_index(mesh: CPUMesh, failure: CoreError) -> bool {
    match failure {
        CoreError::IndexOutOfRange(index, largest) => {
            &&& mesh.indices is Some
            &&& exists|place: int| #[trigger]
                is_first_invalid(mesh.indices->Some_0@, mesh.no_vertices, place)
                    && mesh.indices->Some_0@[place] == index
            &&& largest == if mesh.no_vertices == 0 {
                0
            } else {
                mesh.no_vertices - 1
            }
        },
        _ => false,
    }
}

/// Whether building a surface for `mesh` can end with `res`, the vertex array
/// `bound_after` bound, where `bound_before` was bound before.
///
/// A mesh with an index that names no vertex is refused, and nothing is bound.
/// Otherwise a vertex array is allocated and bound. With an index list, the
/// list goes into an index buffer and the surface draws as many elements as
/// the list is long; where the buffer cannot be filled, that is the failure.
/// Without one, the surface draws the vertices in a row.
pub open spec fn surface_created(
    mesh: CPUMesh,
    allocates: spec_fn(u32) -> bool,
    fills: spec_fn(Result<(), CoreError>) -> bool,
    bound_before: u32,
    bound_after: u32,
    res: Result<TriangleSurface, Error>,
) -> bool {
    if !mesh.indices_valid() {
        &&& bound_after == bound_before
        &&& res matches Err(Error::Mesh(failure)) && reports_invalid_index(mesh, failure)
    } else {
        exists|id: u32|
            {
                &&& #[trigger] allocates(id)
                &&& bound_after == id
                &&& match mesh.indices {
                    None => res matches Ok(surface) && surface.has_shape(id, mesh.no_vertices, false),
                    Some(indices) => exists|filled: Result<(), CoreError>|
                        {
                            &&& #[trigger] fills(filled)
                            &&& match filled {
                                Ok(_) => res matches Ok(surface) && surface.has_shape(
                                    id,
                                    indices.len(),
                                    true,
                                ),
                                Err(e) => res == Err::<TriangleSurface, Error>(Error::Buffer(e)),
                            }
                        },
                }
            }
    }
}

/// What filling a vertex buffer can return for the given attributes, laid
/// side by side with the given stride.
pub open spec fn vertex_fillings<V, F: FnOnce(&Vec<Attribute>, usize) -> Result<V, CoreError>>(
    fill_vertex_buffer: F,
    attributes: Vec<Attribute>,
) -> spec_fn(Result<V, CoreError>) -> bool {
    |filled: Result<V, CoreError>|
        call_ensures(fill_vertex_buffer, (&attributes, stride(attributes@) as usize), filled)
}

/// What linking a vertex buffer with a program can return, for each buffer,
/// given the slots of the attributes that the program declares.
pub open spec fn attribute_setups<V, S: FnOnce(&V, &Vec<AttributeSlot>, usize) -> Result<
    (),
    CoreError,
>>(setup_attributes: S, attributes: Seq<Attribute>, declared: Seq<String>) -> spec_fn(
    V,
    Result<(), CoreError>,
) -> bool {
    |buffer: V, linked: Result<(), CoreError>|
        exists|slots: Vec<AttributeSlot>|
            slots_resolve(attributes, declared, slots@) && #[trigger] call_ensures(
                setup_attributes,
                (&buffer, &slots, stride(attributes) as usize),
                linked,
            )
}

/// Whether adding the attributes of a mesh for a program that declares
/// `declared` can end with `res`.
///
/// Where the program declares an attribute that the mesh does not have, that
/// is the failure, and no buffer is made. Otherwise the vertex buffer is
/// filled; a failure there is the result. Then the buffer is linked with the
/// program; a failure there is the result, and on success the buffer is.
pub open spec fn attributes_added<V>(
    attributes: Seq<Attribute>,
    declared: Seq<String>,
    fills: spec_fn(Result<V, CoreError>) -> bool,
    links: spec_fn(V, Result<(), CoreError>) -> bool,
    res: Result<V, Error>,
) -> bool {
    if !all_declared_present(attributes, declared) {
        res matches Err(failure) && reports_missing(attributes, declared, failure)
    } else {
        exists|filled: Result<V, CoreError>|
            {
                &&& #[trigger] fills(filled)
                &&& match filled {
                    Err(e) => res == Err::<V, Error>(Error::Buffer(e)),
                    Ok(buffer) => exists|linked: Result<(), CoreError>|
                        {
                            &&& #[trigger] links(buffer, linked)
                            &&& match linked {
                                Ok(_) => res == Ok::<V, Error>(buffer),
                                Err(e) => res == Err::<V, Error>(Error::Program(e)),
                            }
                        },
                }
            }
    }
}

/// Whether the closures that add attributes can be called where they are
/// called: the fill on the attributes and their stride, the link on a buffer
/// that the fill can return and on the slots of the declared attributes.
pub open spec fn attributes_addable<V, F, S>(
    attributes: Vec<Attribute>,
    declared: Seq<String>,
    fill_vertex_buffer: F,
    setup_attributes: S,
) -> bool where
    F: FnOnce(&Vec<Attribute>, usize) -> Result<V, CoreError>,
    S: FnOnce(&V, &Vec<AttributeSlot>, usize) -> Result<(), CoreError>,
 {
    &&& stride(attributes@) <= usize::MAX
    &&& all_declared_present(attributes@, declared) ==> call_requires(
        fill_vertex_buffer,
        (&attributes, stride(attributes@) as usize),
    )
    &&& forall|buffer: V, slots: Vec<AttributeSlot>|
        vertex_fillings(fill_vertex_buffer, attributes)(Ok(buffer)) && #[trigger] slots_resolve(
            attributes@,
            declared,
            slots@,
        ) ==> #[trigger] call_requires(
            setup_attributes,
            (&buffer, &slots, stride(attributes@) as usize),
        )
}

impl TriangleSurface {
    /// The name of the vertex array.
    pub closed spec fn spec_id(&self) -> u32 {
        self.id
    }

    /// The number of elements that a draw covers.
    pub closed spec fn spec_count(&self) -> usize {
        self.count
    }

    /// Whether the surface draws through an index buffer.
    pub closed spec fn spec_indexed(&self) -> bool {
        self.indexed
    }

    /// Whether the surface has the given name, count and kind.
    pub open spec fn has_shape(self, id: u32, count: usize, indexed: bool) -> bool {
        self.spec_id() == id && self.spec_count() == count && self.spec_indexed() == indexed
    }

    /// The name of the vertex array.
    #[verifier::when_used_as_spec(spec_id)]
    pub fn id(&self) -> (id: u32)
        ensures
            id == self.spec_id(),
    {
        self.id
    }

    /// The number of elements that a draw covers: indices where the surface
    /// is indexed, vertices where it is not.
    #[verifier::when_used_as_spec(spec_count)]
    pub fn count(&self) -> (count: usize)
        ensures
            count == self.spec_count(),
    {
        self.count
    }

    /// Whether the surface draws through an index buffer.
    #[verifier::when_used_as_spec(spec_indexed)]
    pub fn indexed(&self) -> (indexed: bool)
        ensures
            indexed == self.spec_indexed(),
    {
        self.indexed
    }

    /// Builds the vertex-array state for `mesh`, without vertex data. The
    /// mesh is checked first: where an index names no vertex, nothing is
    /// allocated. Then `gen_vertex_array` gives the name of a new vertex
    /// array, `bind_vertex_array` binds it unless it is bound already, and,
    /// where the mesh has an index list, `fill_element_buffer` puts the list
    /// into a new index buffer.
    pub fn create_without_adding_attributes<A, B, I>(
        binding: &mut VertexArrayBinding,
        mesh: &CPUMesh,
        gen_vertex_array: A,
        bind_vertex_array: B,
        fill_element_buffer: I,
    ) -> (res: Result<TriangleSurface, Error>) where
        A: FnOnce() -> u32,
        B: FnOnce(u32),
        I: FnOnce(&Vec<u32>) -> Result<(), CoreError>,

        requires
            mesh.indices_valid() ==> call_requires(gen_vertex_array, ()),
            forall|id: u32| #[trigger]
                allocations(gen_vertex_array)(id) ==> call_requires(bind_vertex_array, (id,)),
            mesh.indices_valid() && mesh.indices is Some ==> call_requires(
                fill_element_buffer,
                (&mesh.indices->Some_0,),
            ),
        ensures
            surface_created(
                *mesh,
                allocations(gen_vertex_array),
                fillings(fill_element_buffer, mesh.indices),
                old(binding).current(),
                final(binding).current(),
                res,
            ),
    {
        match mesh.validate() {
            Ok(()) => {},
            Err(failure) => {
                return Err(Error::Mesh(failure));
            },
        }
        let id = gen_vertex_array();
        assert(allocations(gen_vertex_array)(id));
        match bind(binding, id) {
            Some(name) => bind_vertex_array(name),
            None => {},
        }
        match &mesh.indices {
            Some(indices) => {
                let filled = fill_element_buffer(indices);
                assert(fillings(fill_element_buffer, mesh.indices)(filled));
                match filled {
                    Ok(()) => Ok(TriangleSurface { id, count: indices.len(), indexed: true }),
                    Err(e) => Err(Error::Buffer(e)),
                }
            },
            None => Ok(TriangleSurface { id, count: mesh.no_vertices, indexed: false }),
        }
    }

    /// Builds the surface for `mesh` with its vertex data, for a program
    /// that declares the attributes `declared`: first the vertex-array state,
    /// as [`TriangleSurface::create_without_adding_attributes`] builds it,
    /// then the attributes, as [`TriangleSurface::add_attributes`] adds them.
    /// The first failure is returned.
    pub fn create<V, A, B, I, F, S>(
        binding: &mut VertexArrayBinding,
        mesh: &CPUMesh,
        declared: &Vec<String>,
        gen_vertex_array: A,
        bind_vertex_array: B,
        fill_element_buffer: I,
        fill_vertex_buffer: F,
        setup_attributes: S,
    ) -> (res: Result<TriangleSurface, Error>) where
        A: FnOnce() -> u32,
        B: FnOnce(u32),
        I: FnOnce(&Vec<u32>) -> Result<(), CoreError>,
        F: FnOnce(&Vec<Attribute>, usize) -> Result<V, CoreError>,
        S: FnOnce(&V, &Vec<AttributeSlot>, usize) -> Result<(), CoreError>,

        requires
            mesh.indices_valid() ==> call_requires(gen_vertex_array, ()),
            forall|id: u32| #[trigger]
                allocations(gen_vertex_array)(id) ==> call_requires(bind_vertex_array, (id,)),
            mesh.indices_valid() && mesh.indices is Some ==> call_requires(
                fill_element_buffer,
                (&mesh.indices->Some_0,),
            ),
            attributes_addable(mesh.attributes, declared@, fill_vertex_buffer, setup_attributes),
        ensures
            exists|built: Result<TriangleSurface, Error>|
                {
                    &&& #[trigger] surface_created(
                        *mesh,
                        allocations(gen_vertex_array),
                        fillings(fill_element_buffer, mesh.indices),
                        old(binding).current(),
                        final(binding).current(),
                        built,
                    )
                    &&& match built {
                        Err(e) => res == Err::<TriangleSurface, Error>(e),
                        Ok(surface) => exists|added: Result<V, Error>|
                            {
                                &&& #[trigger] attributes_added(
                                    mesh.attributes@,
                                    declared@,
                                    vertex_fillings(fill_vertex_buffer, mesh.attributes),
                                    attribute_setups(setup_attributes, mesh.attributes@, declared@),
                                    added,
                                )
                                &&& match added {
                                    Ok(_) => res == Ok::<TriangleSurface, Error>(surface),
                                    Err(e) => res == Err::<TriangleSurface, Error>(e),
                                }
                            },
                    }
                },
    {
        let built = TriangleSurface::create_without_adding_attributes(
            binding,
            mesh,
            gen_vertex_array,
            bind_vertex_array,
            fill_element_buffer,
        );
        match built {
            Ok(surface) => {
                let added = surface.add_attributes(
                    &mesh.attributes,
                    declared,
                    fill_vertex_buffer,
                    setup_attributes,
                );
                match added {
                    Ok(_) => Ok(surface),
                    Err(e) => Err(e),
                }
            },
            Err(e) => Err(e),
        }
    }

    /// Puts the attributes of a mesh into a vertex buffer, side by side for
    /// each vertex, and links the buffer with a program that declares the
    /// attributes `declared`. The declared attributes are looked up first:
    /// where the mesh lacks one, no buffer is made. Then `fill_vertex_buffer`
    /// makes the buffer from the attributes and their stride, and
    /// `setup_attributes` links it, given the slot of each declared attribute
    /// and the stride.
    pub fn add_attributes<V, F, S>(
        &self,
        attributes: &Vec<Attribute>,
        declared: &Vec<String>,
        fill_vertex_buffer: F,
        setup_attributes: S,
    ) -> (res: Result<V, Error>) where
        F: FnOnce(&Vec<Attribute>, usize) -> Result<V, CoreError>,
        S: FnOnce(&V, &Vec<AttributeSlot>, usize) -> Result<(), CoreError>,

        requires
            attributes_addable(*attributes, declared@, fill_vertex_buffer, setup_attributes),
        ensures
            attributes_added(
                attributes@,
                declared@,
                vertex_fillings(fill_vertex_buffer, *attributes),
                attribute_setups(setup_attributes, attributes@, declared@),
                res,
            ),
    {
        let slots = match resolve_attributes(attributes, declared) {
            Ok(slots) => slots,
            Err(failure) => {
                return Err(failure);
            },
        };
        let sums = offsets(attributes);
        let stride = sums[attributes.len()];
        let filled = fill_vertex_buffer(attributes, stride);
        assert(vertex_fillings(fill_vertex_buffer, *attributes)(filled));
        match filled {
            Ok(buffer) => {
                let linked = setup_attributes(&buffer, &slots, stride);
                assert(attribute_setups(setup_attributes, attributes@, declared@)(buffer, linked));
                match linked {
                    Ok(()) => Ok(buffer),
                    Err(e) => Err(Error::Program(e)),
                }
            },
            Err(e) => Err(Error::Buffer(e)),
        }
    }

    /// Makes this surface's vertex array the bound one. Returns the name to
    /// bind on the GPU, or nothing where it is bound already.
    pub fn bind(&self, binding: &mut VertexArrayBinding) -> (call: Option<u32>)
        ensures
            final(binding).current() == self.id(),
            call == if old(binding).current() == self.id() {
                None
            } else {
                Some(self.id())
            },
    {
        bind(binding, self.id)
    }

    /// The draw call of this surface: over the index buffer where the
    /// surface is indexed, over the vertices from the first one where it is
    /// not. The count is cut to 32 bits.
    pub open spec fn draw_call(self) -> DrawCall {
        if self.indexed() {
            DrawCall::Elements { count: self.count() as i32 }
        } else {
            DrawCall::Arrays { first: 0, count: self.count() as i32 }
        }
    }

    /// The commands that render the surface: a bind of its vertex array,
    /// unless that is bound already, and one draw call over all its elements.
    pub fn render(&self, binding: &mut VertexArrayBinding) -> (res: Result<RenderCommands, Error>)
        ensures
            final(binding).current() == self.id(),
            res == Ok::<RenderCommands, Error>(
                RenderCommands {
                    bind: if old(binding).current() == self.id() {
                        None
                    } else {
                        Some(self.id())
                    },
                    draw: self.draw_call(),
                },
            ),
            self.count() <= i32::MAX ==> res->Ok_0.draw.spec_count() == self.count(),
    {
        let call = self.bind(binding);
        let count = #[verifier::truncate]
        (self.count as i32);
        let draw = match self.indexed {
            true => DrawCall::Elements { count },
            false => DrawCall::Arrays { first: 0, count },
        };
        Ok(RenderCommands { bind: call, draw })
    }
}

} // verus!
