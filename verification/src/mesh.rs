//! What the renderer reads of a mesh that lives in main memory: its names,
//! its index list, its number of vertices and the layout of its attributes.
//! The numbers of the attributes themselves stay with the caller.

use vstd::prelude::*;
use crate::context::CoreError;

verus! {

/// The name of the attribute that holds the normals.
pub open spec fn normal_name() -> Seq<char> {
    "normal"@
}

/// The name of the attribute that holds the uv coordinates.
pub open spec fn uv_name() -> Seq<char> {
    "uv_coordinates"@
}

/// One named array of numbers with a fixed number of components for each
/// vertex.
pub struct Attribute {
    /// The name under which a program declares the attribute.
    pub name: String,
    /// The number of components for each vertex.
    pub no_components: usize,
}

/// A mesh in main memory.
pub struct CPUMesh {
    /// The name of the mesh.
    pub name: String,
    /// The name of the material that the mesh asks for, if it asks for one.
    pub material_name: Option<String>,
    /// The corners of the triangles as places in the vertex list, three for
    /// each triangle; without it, every three vertices in a row are a triangle.
    pub indices: Option<Vec<u32>>,
    /// The number of vertices.
    pub no_vertices: usize,
    /// The attributes, in the order in which they are laid out.
    pub attributes: Vec<Attribute>,
}

/// The names of the attributes, in order.
pub open spec fn attribute_names(attributes: Seq<Attribute>) -> Seq<Seq<char>> {
    Seq::new(attributes.len(), |i: int| attributes[i].name@)
}

/// Whether `place` is the place of the first index that is not below
/// `no_vertices`.
pub open spec fn is_first_invalid(indices: Seq<u32>, no_vertices: usize, place: int) -> bool {
    &&& 0 <= place < indices.len()
    &&& indices[place] >= no_vertices
    &&& forall|j: int| 0 <= j < place ==> (#[trigger] indices[j]) < no_vertices
}

/// Whether `place` is the place of the first attribute of the given name.
pub open spec fn is_first_named(attributes: Seq<Attribute>, name: Seq<char>, place: int) -> bool {
    &&& 0 <= place < attributes.len()
    &&& attributes[place].name@ == name
    &&& forall|j: int| 0 <= j < place ==> (#[trigger] attributes[j]).name@ != name
}

/// The place of the first attribute of the given name, if there is one.
pub fn find_named(attributes: &Vec<Attribute>, name: &str) -> (found: Option<usize>)
    ensures
        match found {
            Some(place) => is_first_named(attributes@, name@, place as int),
            None => !attribute_names(attributes@).contains(name@),
        },
        found is Some <==> attribute_names(attributes@).contains(name@),
{
    let wanted = name.to_owned();
    let mut i: usize = 0;
    while i < attributes.len()
        invariant
            i <= attributes@.len(),
            wanted@ == name@,
            forall|j: int| 0 <= j < i ==> (#[trigger] attributes@[j]).name@ != name@,
        decreases attributes.len() - i,
    {
        if attributes[i].name == wanted {
            assert(attribute_names(attributes@)[i as int] == name@);
            return Some(i);
        }
        i += 1;
    }
    assert forall|j: int| 0 <= j < attribute_names(attributes@).len() implies attribute_names(
        attributes@,
    )[j] != name@ by {
        assert(attributes@[j].name@ != name@);
    }
    None
}

impl CPUMesh {
    /// Whether the mesh has an attribute of the given name.
    pub open spec fn has_attribute(self, name: Seq<char>) -> bool {
        attribute_names(self.attributes@).contains(name)
    }

    /// Every index names a vertex.
    pub open spec fn indices_valid(self) -> bool {
        match self.indices {
            Some(indices) => forall|i: int|
                0 <= i < indices@.len() ==> (#[trigger] indices@[i]) < self.no_vertices,
            None => true,
        }
    }

    /// The place of the first attribute of the given name, if there is one.
    pub fn find_attribute(&self, name: &str) -> (found: Option<usize>)
        ensures
            match found {
                Some(place) => is_first_named(self.attributes@, name@, place as int),
                None => !self.has_attribute(name@),
            },
            found is Some <==> self.has_attribute(name@),
    {
        find_named(&self.attributes, name)
    }

    /// Whether the mesh has normals.
    pub fn has_normals(&self) -> (present: bool)
        ensures
            present == self.has_attribute(normal_name()),
    {
        self.find_attribute("normal").is_some()
    }

    /// Whether the mesh has uv coordinates.
    pub fn has_uvs(&self) -> (present: bool)
        ensures
            present == self.has_attribute(uv_name()),
    {
        self.find_attribute("uv_coordinates").is_some()
    }

    /// Checks that every index names a vertex. The failure names the first
    /// index that does not, and the largest index that would (zero where the
    /// mesh has no vertex at all).
    pub fn validate(&self) -> (res: Result<(), CoreError>)
        ensures
            res is Ok <==> self.indices_valid(),
            match res {
                Ok(_) => true,
                Err(CoreError::IndexOutOfRange(index, largest)) => {
                    &&& self.indices is Some
                    &&& exists|place: int| #[trigger]
                        is_first_invalid(self.indices->Some_0@, self.no_vertices, place)
                            && self.indices->Some_0@[place] == index
                    &&& largest == if self.no_vertices == 0 {
                        0
                    } else {
                        self.no_vertices - 1
                    }
                },
                Err(_) => false,
            },
    {
        match &self.indices {
            Some(indices) => {
                let mut i: usize = 0;
                while i < indices.len()
                    invariant
                        i <= indices@.len(),
                        self.indices == Some(*indices),
                        forall|j: int| 0 <= j < i ==> (#[trigger] indices@[j]) < self.no_vertices,
                    decreases indices.len() - i,
                {
                    let index = indices[i] as usize;
                    if index >= self.no_vertices {
                        let largest = if self.no_vertices == 0 {
                            0
                        } else {
                            self.no_vertices - 1
                        };
                        assert(self.indices->Some_0@ == indices@);
                        assert(is_first_invalid(indices@, self.no_vertices, i as int));
                        return Err(CoreError::IndexOutOfRange(index, largest));
                    }
                    i += 1;
                }
                Ok(())
            },
            None => Ok(()),
        }
    }
}

} // verus!
