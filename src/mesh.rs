use std::collections::HashMap;

use vstd::prelude::*;

verus! {

/// One vertex as the bit patterns of its 32-bit float components.
///
/// Two vertices are the same vertex exactly when every component has the same
/// bits, so values that differ only by rounding stay distinct.
#[derive(Clone, Copy, Debug)]
pub struct VertexKey {
    pub position: [u32; 3],
    pub color: [u32; 4],
    pub uv: [u32; 2],
    pub normal: [u32; 3],
}

impl View for VertexKey {
    type V = Seq<u32>;

    open spec fn view(&self) -> Seq<u32> {
        seq![
            self.position[0], self.position[1], self.position[2],
            self.color[0], self.color[1], self.color[2], self.color[3],
            self.uv[0], self.uv[1],
            self.normal[0], self.normal[1], self.normal[2],
        ]
    }
}

impl VertexKey {
    /// Bit-exact comparison of all twelve components.
    pub fn same_as(&self, other: &VertexKey) -> (r: bool)
        ensures
            r == (self@ == other@),
    {
        let r = self.position[0] == other.position[0] && self.position[1] == other.position[1]
            && self.position[2] == other.position[2] && self.color[0] == other.color[0]
            && self.color[1] == other.color[1] && self.color[2] == other.color[2]
            && self.color[3] == other.color[3] && self.uv[0] == other.uv[0]
            && self.uv[1] == other.uv[1] && self.normal[0] == other.normal[0]
            && self.normal[1] == other.normal[1] && self.normal[2] == other.normal[2];
        proof {
            if self@ == other@ {
                assert(self@[0] == other@[0]);
                assert(self@[1] == other@[1]);
                assert(self@[2] == other@[2]);
                assert(self@[3] == other@[3]);
                assert(self@[4] == other@[4]);
                assert(self@[5] == other@[5]);
                assert(self@[6] == other@[6]);
                assert(self@[7] == other@[7]);
                assert(self@[8] == other@[8]);
                assert(self@[9] == other@[9]);
                assert(self@[10] == other@[10]);
                assert(self@[11] == other@[11]);
            }
        }
        r
    }
}

/// The views of a sequence of vertices.
pub open spec fn views(vs: Seq<VertexKey>) -> Seq<Seq<u32>> {
    Seq::new(vs.len(), |i: int| vs[i]@)
}

/// `table` holds the distinct vertices of `input` in order of first occurrence,
/// and `refs[k]` is the position in `table` of `input[k]`.
pub open spec fn is_deduplication(input: Seq<Seq<u32>>, table: Seq<Seq<u32>>, refs: Seq<u32>) -> bool {
    &&& refs.len() == input.len()
    &&& forall|k: int| #![trigger refs[k]] 0 <= k < refs.len() ==> (refs[k] as int) < table.len() && table[refs[k] as int] == input[k]
    &&& forall|i: int, j: int| #![trigger table[i], table[j]] 0 <= i < j < table.len() ==> table[i] != table[j]
    &&& forall|t: int| #![trigger is_referenced(refs, t, refs.len() as int)] 0 <= t < table.len() ==> is_referenced(refs, t, refs.len() as int)
    &&& forall|k: int| #![trigger refs[k]] 0 <= k < refs.len() && refs[k] > 0 ==> is_referenced(refs, refs[k] - 1, k)
}

/// Some position before `end` in `refs` holds `t`.
#[verifier::opaque]
pub open spec fn is_referenced(refs: Seq<u32>, t: int, end: int) -> bool {
    exists|j: int| 0 <= j < end && refs[j] == t
}

proof fn lemma_referenced_push(refs: Seq<u32>, v: u32, t: int, end: int, wider: int)
    requires
        is_referenced(refs, t, end),
        end <= refs.len(),
        end <= wider <= refs.len() + 1,
    ensures
        is_referenced(refs.push(v), t, wider),
{
    reveal(is_referenced);
    let j = choose|j: int| 0 <= j < end && refs[j] == t;
    assert(refs.push(v)[j] == refs[j]);
}

proof fn lemma_extend_found(input: Seq<Seq<u32>>, table: Seq<Seq<u32>>, refs: Seq<u32>, x: Seq<u32>, i: u32)
    requires
        is_deduplication(input, table, refs),
        (i as int) < table.len(),
        table[i as int] == x,
    ensures
        is_deduplication(input.push(x), table, refs.push(i)),
{
    let refs2 = refs.push(i);
    let input2 = input.push(x);
    assert forall|k: int| #![trigger refs2[k]] 0 <= k < refs2.len() implies (refs2[k] as int) < table.len()
        && table[refs2[k] as int] == input2[k] by {
        if k < refs.len() {
            assert(refs2[k] == refs[k]);
            assert(input2[k] == input[k]);
        }
    }
    assert forall|t: int| #![trigger is_referenced(refs2, t, refs2.len() as int)] 0 <= t < table.len() implies is_referenced(refs2, t, refs2.len() as int) by {
        lemma_referenced_push(refs, i, t, refs.len() as int, (refs.len() + 1) as int);
    }
    assert forall|m: int| #![trigger refs2[m]] 0 <= m < refs2.len() && refs2[m] > 0 implies is_referenced(refs2, refs2[m] - 1, m) by {
        if m < refs.len() {
            assert(refs2[m] == refs[m]);
            lemma_referenced_push(refs, i, refs[m] - 1, m, m);
        } else {
            let t = refs2[m] as int;
            lemma_referenced_push(refs, i, t - 1, refs.len() as int, refs.len() as int);
        }
    }
}

proof fn lemma_extend_new(input: Seq<Seq<u32>>, table: Seq<Seq<u32>>, refs: Seq<u32>, x: Seq<u32>)
    requires
        is_deduplication(input, table, refs),
        table.len() <= u32::MAX,
        forall|i: int| 0 <= i < table.len() ==> table[i] != x,
    ensures
        is_deduplication(input.push(x), table.push(x), refs.push(table.len() as u32)),
{
    let n = table.len() as u32;
    let refs2 = refs.push(n);
    let input2 = input.push(x);
    let table2 = table.push(x);
    assert forall|k: int| #![trigger refs2[k]] 0 <= k < refs2.len() implies (refs2[k] as int) < table2.len()
        && table2[refs2[k] as int] == input2[k] by {
        if k < refs.len() {
            assert(refs2[k] == refs[k]);
            assert(input2[k] == input[k]);
            assert(table2[refs[k] as int] == table[refs[k] as int]);
        }
    }
    assert forall|i: int, j: int| #![trigger table2[i], table2[j]] 0 <= i < j < table2.len() implies table2[i] != table2[j] by {
        assert(table2[i] == table[i]);
        if j < table.len() {
            assert(table2[j] == table[j]);
        }
    }
    assert forall|t: int| #![trigger is_referenced(refs2, t, refs2.len() as int)] 0 <= t < table2.len() implies is_referenced(refs2, t, refs2.len() as int) by {
        if t < table.len() {
            lemma_referenced_push(refs, n, t, refs.len() as int, (refs.len() + 1) as int);
        } else {
            reveal(is_referenced);
            assert(refs2[refs.len() as int] == t);
        }
    }
    assert forall|m: int| #![trigger refs2[m]] 0 <= m < refs2.len() && refs2[m] > 0 implies is_referenced(refs2, refs2[m] - 1, m) by {
        if m < refs.len() {
            assert(refs2[m] == refs[m]);
            lemma_referenced_push(refs, n, refs[m] - 1, m, m);
        } else {
            let t = refs2[m] as int;
            lemma_referenced_push(refs, n, t - 1, refs.len() as int, refs.len() as int);
        }
    }
}

/// Two corners share one table entry exactly when their vertices are
/// bit-identical; otherwise each gets its own, in order.
pub proof fn lemma_two_corners(a: Seq<u32>, b: Seq<u32>, table: Seq<Seq<u32>>, refs: Seq<u32>)
    requires
        is_deduplication(seq![a, b], table, refs),
    ensures
        a == b ==> table.len() == 1 && refs == seq![0u32, 0u32],
        a != b ==> table.len() == 2 && refs == seq![0u32, 1u32],
{
    let input = seq![a, b];
    assert(refs[0] == refs[0] && refs[1] == refs[1]);
    assert(input[0] == a && input[1] == b);
    if refs[0] > 0 {
        assert(is_referenced(refs, refs[0] - 1, 0));
        reveal(is_referenced);
    }
    assert(refs[0] == 0);
    if a == b {
        if refs[1] != 0 {
            assert(table[0] != table[refs[1] as int]);
        }
    } else {
        assert(refs[1] > 0);
        assert(is_referenced(refs, refs[1] - 1, 1));
        reveal(is_referenced);
        assert(refs[1] == 1);
    }
    assert forall|t: int| #![trigger table[t]] 0 <= t < table.len() implies t == refs[0] || t == refs[1] by {
        assert(is_referenced(refs, t, refs.len() as int));
        reveal(is_referenced);
    }
    if a == b {
        if table.len() > 1 {
            let second = table[1];
            assert(1 == refs[0] || 1 == refs[1]);
        }
        assert(refs =~= seq![0u32, 0u32]);
    } else {
        if table.len() > 2 {
            let third = table[2];
            assert(2 == refs[0] || 2 == refs[1]);
        }
        assert(refs =~= seq![0u32, 1u32]);
    }
}

/// Any two corners whose vertices are bit-identical refer to one entry, the
/// only entry of the table that holds that vertex; two corners whose vertices
/// differ in any bit refer to two different entries.
pub proof fn lemma_shared_vertex(input: Seq<Seq<u32>>, table: Seq<Seq<u32>>, refs: Seq<u32>, k1: int, k2: int)
    requires
        is_deduplication(input, table, refs),
        0 <= k1 < input.len(),
        0 <= k2 < input.len(),
    ensures
        input[k1] == input[k2] ==> refs[k1] == refs[k2],
        input[k1] != input[k2] ==> refs[k1] != refs[k2],
        forall|t: int| 0 <= t < table.len() && table[t] == input[k1] ==> t == refs[k1],
{
    let (r1, r2) = (refs[k1] as int, refs[k2] as int);
    assert(table[r1] == input[k1] && table[r2] == input[k2]);
    if input[k1] == input[k2] && r1 != r2 {
        if r1 < r2 {
            assert(table[r1] != table[r2]);
        } else {
            assert(table[r2] != table[r1]);
        }
    }
    assert forall|t: int| 0 <= t < table.len() && table[t] == input[k1] implies t == r1 by {
        if t < r1 {
            assert(table[t] != table[r1]);
        } else if t > r1 {
            assert(table[r1] != table[t]);
        }
    }
}

/// Position of the first entry of `table` that is bit-identical to `v`.
fn find_vertex(table: &Vec<VertexKey>, v: &VertexKey) -> (r: Option<usize>)
    ensures
        match r {
            Some(i) => i < table.len() && table@[i as int]@ == v@,
            None => forall|i: int| 0 <= i < table.len() ==> table@[i]@ != v@,
        },
{
    let mut i: usize = 0;
    while i < table.len()
        invariant
            i <= table.len(),
            forall|j: int| 0 <= j < i ==> table@[j]@ != v@,
        decreases table.len() - i,
    {
        if table[i].same_as(v) {
            return Some(i);
        }
        i = i + 1;
    }
    None
}

/// Collapses bit-identical vertices into one table entry each.
///
/// Returns the table of distinct vertices, in order of first occurrence, and
/// for each input vertex the position of its entry in the table.
pub fn deduplicate(vertices: &Vec<VertexKey>) -> (r: (Vec<VertexKey>, Vec<u32>))
    requires
        vertices.len() <= u32::MAX,
    ensures
        is_deduplication(views(vertices@), views(r.0@), r.1@),
{
    let mut table: Vec<VertexKey> = Vec::new();
    let mut refs: Vec<u32> = Vec::new();
    let mut k: usize = 0;
    assert(views(vertices@).take(0) == Seq::<Seq<u32>>::empty());
    assert(views(table@) == Seq::<Seq<u32>>::empty());
    while k < vertices.len()
        invariant
            k <= vertices.len() <= u32::MAX,
            table.len() <= k,
            is_deduplication(views(vertices@).take(k as int), views(table@), refs@),
        decreases vertices.len() - k,
    {
        let v = vertices[k];
        let ghost input = views(vertices@).take(k as int);
        let ghost old_table = views(table@);
        let ghost old_refs = refs@;
        assert(views(vertices@).take(k + 1) == input.push(v@));
        match find_vertex(&table, &v) {
            Some(i) => {
                proof {
                    lemma_extend_found(input, old_table, old_refs, v@, i as u32);
                }
                refs.push(i as u32);
                assert(views(table@) == old_table);
            },
            None => {
                proof {
                    lemma_extend_new(input, old_table, old_refs, v@);
                }
                let n = table.len();
                refs.push(n as u32);
                table.push(v);
                assert(views(table@) == old_table.push(v@));
            },
        }
        k = k + 1;
    }
    assert(views(vertices@).take(k as int) == views(vertices@));
    (table, refs)
}


/// Attribute arrays of one imported mesh, each float given by its bit pattern.
///
/// Positions and normals hold three words per vertex, texture coordinates two,
/// as the file gives them. Every attribute is looked up with the same vertex
/// index.
pub struct MeshAttributes {
    pub positions: Vec<u32>,
    pub texcoords: Vec<u32>,
    pub normals: Vec<u32>,
    pub indices: Vec<u32>,
}

impl View for MeshAttributes {
    type V = (Seq<u32>, Seq<u32>, Seq<u32>, Seq<u32>);

    /// Positions, texture coordinates, normals and indices.
    open spec fn view(&self) -> (Seq<u32>, Seq<u32>, Seq<u32>, Seq<u32>) {
        (self.positions@, self.texcoords@, self.normals@, self.indices@)
    }
}

/// A mesh ready for upload: distinct vertices and a triangle list into them.
pub struct MeshData {
    pub vertices: Vec<VertexKey>,
    pub indices: Vec<u32>,
}

/// Why a mesh cannot be imported or drawn.
#[derive(Clone, Copy, Debug, PartialEq, Eq, Structural)]
pub enum MeshError {
    /// The mesh text could not be read.
    LoadFailed,
    /// A face refers to a texture coordinate or normal by a negative index, or
    /// by an index of ten digits or more, which the importer cannot resolve.
    UnsupportedReference,
    /// The meshes have more corners than 32-bit indices can number.
    TooManyCorners,
    /// The index count is not a multiple of three.
    IndexCountNotTriangles { count: usize },
}

/// Every index has a full record of `width` words in an array of `len` words.
pub open spec fn has_records(len: int, width: int, indices: Seq<u32>) -> bool {
    forall|k: int| 0 <= k < indices.len() ==> (indices[k] + 1) * width <= len
}

/// The `width` words of record `i`, or `width` zero words where the array does
/// not cover every index of the mesh.
pub open spec fn record(words: Seq<u32>, width: int, present: bool, i: int) -> Seq<u32> {
    if present {
        words.subrange(i * width, i * width + width)
    } else {
        Seq::new(width as nat, |j: int| 0u32)
    }
}

/// The vertex that corner `k` of the mesh refers to.
pub open spec fn corner_vertex(m: (Seq<u32>, Seq<u32>, Seq<u32>, Seq<u32>), color: [u32; 4], k: int) -> Seq<u32> {
    let (positions, texcoords, normals, indices) = m;
    let i = indices[k] as int;
    record(positions, 3, has_records(positions.len() as int, 3, indices), i)
        + color@
        + record(texcoords, 2, has_records(texcoords.len() as int, 2, indices), i)
        + record(normals, 3, has_records(normals.len() as int, 3, indices), i)
}

/// The vertices of all corners of a mesh, in index order.
pub open spec fn corner_vertices(m: (Seq<u32>, Seq<u32>, Seq<u32>, Seq<u32>), color: [u32; 4]) -> Seq<Seq<u32>> {
    Seq::new(m.3.len(), |k: int| corner_vertex(m, color, k))
}

/// The views of several meshes.
pub open spec fn attribute_views(ms: Seq<MeshAttributes>) -> Seq<(Seq<u32>, Seq<u32>, Seq<u32>, Seq<u32>)> {
    Seq::new(ms.len(), |i: int| ms[i]@)
}

/// How many corners several meshes have together.
pub open spec fn corner_count(ms: Seq<(Seq<u32>, Seq<u32>, Seq<u32>, Seq<u32>)>) -> nat
    decreases ms.len(),
{
    if ms.len() == 0 {
        0
    } else {
        corner_count(ms.drop_last()) + ms.last().3.len()
    }
}

/// The corner vertices of several meshes, one mesh after the other.
pub open spec fn all_corner_vertices(ms: Seq<(Seq<u32>, Seq<u32>, Seq<u32>, Seq<u32>)>, color: [u32; 4]) -> Seq<Seq<u32>>
    decreases ms.len(),
{
    if ms.len() == 0 {
        Seq::empty()
    } else {
        all_corner_vertices(ms.drop_last(), color) + corner_vertices(ms.last(), color)
    }
}

proof fn lemma_corner_count_grows(ms: Seq<(Seq<u32>, Seq<u32>, Seq<u32>, Seq<u32>)>, i: int)
    requires
        0 <= i <= ms.len(),
    ensures
        corner_count(ms.take(i)) <= corner_count(ms),
    decreases ms.len(),
{
    if i < ms.len() {
        assert(ms.drop_last().take(i) =~= ms.take(i));
        lemma_corner_count_grows(ms.drop_last(), i);
    } else {
        assert(ms.take(i) =~= ms);
    }
}

proof fn lemma_corner_count(ms: Seq<(Seq<u32>, Seq<u32>, Seq<u32>, Seq<u32>)>, color: [u32; 4])
    ensures
        all_corner_vertices(ms, color).len() == corner_count(ms),
    decreases ms.len(),
{
    if ms.len() > 0 {
        lemma_corner_count(ms.drop_last(), color);
    }
}

/// Whether every index of `indices` has a full record of `width` words among
/// `len` words.
fn covers_all(indices: &Vec<u32>, len: usize, width: usize) -> (r: bool)
    requires
        1 <= width <= 3,
    ensures
        r == has_records(len as int, width as int, indices@),
{
    let mut k: usize = 0;
    while k < indices.len()
        invariant
            1 <= width <= 3,
            k <= indices.len(),
            forall|j: int| 0 <= j < k ==> (indices@[j] + 1) * width <= len,
        decreases indices.len() - k,
    {
        let i = indices[k] as u64;
        assert((i + 1) * (width as u64) <= 4294967296u64 * 3) by (nonlinear_arith)
            requires
                i <= 4294967295,
                width <= 3,
        ;
        if (i + 1) * (width as u64) > len as u64 {
            return false;
        }
        k = k + 1;
    }
    true
}

/// Copies record `i` of `width` words, or gives zero words when `present` is false.
fn read_record(words: &Vec<u32>, width: usize, present: bool, i: u32) -> (r: Vec<u32>)
    requires
        1 <= width <= 3,
        present ==> (i + 1) * width <= words.len(),
    ensures
        r@ == record(words@, width as int, present, i as int),
{
    let mut out: Vec<u32> = Vec::new();
    let mut j: usize = 0;
    let ghost base: int = i * width;
    proof {
        if present {
            assert((i + 1) * width == i * width + width) by (nonlinear_arith);
        }
    }
    while j < width
        invariant
            1 <= width <= 3,
            j <= width,
            base == i * width,
            present ==> base + width <= words.len(),
            out@.len() == j,
            forall|q: int| 0 <= q < j ==> out@[q] == if present { words@[base + q] } else { 0u32 },
        decreases width - j,
    {
        if present {
            let at = i as usize * width + j;
            out.push(words[at]);
        } else {
            out.push(0u32);
        }
        j = j + 1;
    }
    assert(out@ =~= record(words@, width as int, present, i as int));
    out
}

/// The vertex of each corner of `m`, in index order.
///
/// An attribute array that does not cover every index of the mesh contributes
/// zero words to every vertex; `color` is given to every vertex.
pub fn gather_vertices(m: &MeshAttributes, color: [u32; 4]) -> (r: Vec<VertexKey>)
    ensures
        views(r@) == corner_vertices(m@, color),
{
    let has_pos = covers_all(&m.indices, m.positions.len(), 3);
    let has_uv = covers_all(&m.indices, m.texcoords.len(), 2);
    let has_normal = covers_all(&m.indices, m.normals.len(), 3);
    let mut out: Vec<VertexKey> = Vec::new();
    let mut k: usize = 0;
    while k < m.indices.len()
        invariant
            k <= m.indices.len(),
            has_pos == has_records(m.positions@.len() as int, 3, m.indices@),
            has_uv == has_records(m.texcoords@.len() as int, 2, m.indices@),
            has_normal == has_records(m.normals@.len() as int, 3, m.indices@),
            out@.len() == k,
            forall|q: int| 0 <= q < k ==> out@[q]@ == corner_vertex(m@, color, q),
        decreases m.indices.len() - k,
    {
        let i = m.indices[k];
        let p = read_record(&m.positions, 3, has_pos, i);
        let t = read_record(&m.texcoords, 2, has_uv, i);
        let n = read_record(&m.normals, 3, has_normal, i);
        let v = VertexKey {
            position: [p[0], p[1], p[2]],
            color,
            uv: [t[0], t[1]],
            normal: [n[0], n[1], n[2]],
        };
        assert(v@ =~= corner_vertex(m@, color, k as int));
        out.push(v);
        k = k + 1;
    }
    assert(views(out@) =~= corner_vertices(m@, color));
    out
}

/// Builds the mesh data of imported meshes, checking that it can be indexed
/// with 32-bit indices and drawn as a triangle list.
pub fn mesh_data_from_attributes(meshes: &Vec<MeshAttributes>, color: [u32; 4]) -> (r: Result<MeshData, MeshError>)
    ensures
        corner_count(attribute_views(meshes@)) > u32::MAX <==> r == Err::<MeshData, MeshError>(MeshError::TooManyCorners),
        corner_count(attribute_views(meshes@)) <= u32::MAX ==> {
            &&& corner_count(attribute_views(meshes@)) % 3 == 0 <==> r is Ok
            &&& corner_count(attribute_views(meshes@)) % 3 != 0 ==> r == Err::<MeshData, MeshError>(
                MeshError::IndexCountNotTriangles { count: corner_count(attribute_views(meshes@)) as usize },
            )
        },
        r matches Ok(d) ==> is_deduplication(
            all_corner_vertices(attribute_views(meshes@), color),
            views(d.vertices@),
            d.indices@,
        ),
        r matches Ok(d) ==> d.indices.len() % 3 == 0,
{
    let mut total: u64 = 0;
    let mut i: usize = 0;
    while i < meshes.len()
        invariant
            i <= meshes.len(),
            total == corner_count(attribute_views(meshes@.take(i as int))),
            total <= u32::MAX,
        decreases meshes.len() - i,
    {
        assert(attribute_views(meshes@.take(i + 1)).drop_last() =~= attribute_views(meshes@.take(i as int)));
        let n = meshes[i].indices.len() as u64;
        if n > u32::MAX as u64 - total {
            proof {
                lemma_corner_count_grows(attribute_views(meshes@), i + 1);
                assert(attribute_views(meshes@).take(i + 1) =~= attribute_views(meshes@.take(i + 1)));
            }
            return Err(MeshError::TooManyCorners);
        }
        total = total + n;
        i = i + 1;
    }
    assert(meshes@.take(i as int) =~= meshes@);
    let data = build_mesh_data(meshes, color);
    proof {
        lemma_corner_count(attribute_views(meshes@), color);
    }
    match check_triangle_list(&data.indices) {
        Ok(()) => Ok(data),
        Err(e) => Err(e),
    }
}

/// Reads an OBJ text into one deduplicated mesh.
///
/// Faces are split into triangles; the corners of all meshes in the text are
/// taken in order and collapsed as [`build_mesh_data`] does. Every NaN
/// component reads as the same quiet NaN.
pub fn load_mesh_data(text: &Vec<u8>, color: [u32; 4]) -> (r: Result<MeshData, MeshError>)
    ensures
        !face_refs_bounded(text@) <==> r == Err::<MeshData, MeshError>(
            MeshError::UnsupportedReference,
        ),
        face_refs_bounded(text@) ==> (!obj_loads(text@) <==> r == Err::<MeshData, MeshError>(
            MeshError::LoadFailed,
        )),
        face_refs_bounded(text@) && obj_loads(text@) ==> {
            let count = corner_count(obj_meshes(text@));
            &&& count > u32::MAX <==> r == Err::<MeshData, MeshError>(MeshError::TooManyCorners)
            &&& count <= u32::MAX ==> (count % 3 == 0 <==> r is Ok)
            &&& count <= u32::MAX && count % 3 != 0 ==> r == Err::<MeshData, MeshError>(
                MeshError::IndexCountNotTriangles { count: count as usize },
            )
        },
        r matches Ok(d) ==> is_deduplication(
            all_corner_vertices(obj_meshes(text@), color),
            views(d.vertices@),
            d.indices@,
        ),
        r matches Ok(d) ==> d.indices.len() % 3 == 0,
{
    if !references_bounded(text) {
        return Err(MeshError::UnsupportedReference);
    }
    match parse_obj(text) {
        Ok(meshes) => {
            let meshes = canonical_meshes(&meshes);
            mesh_data_from_attributes(&meshes, color)
        },
        Err(_) => Err(MeshError::LoadFailed),
    }
}

/// Checks that `indices` describes whole triangles.
pub fn check_triangle_list(indices: &Vec<u32>) -> (r: Result<(), MeshError>)
    ensures
        r == if indices.len() % 3 == 0 {
            Ok::<(), MeshError>(())
        } else {
            Err(MeshError::IndexCountNotTriangles { count: indices.len() })
        },
{
    if indices.len() % 3 != 0 {
        Err(MeshError::IndexCountNotTriangles { count: indices.len() })
    } else {
        Ok(())
    }
}

/// Builds one deduplicated mesh from the meshes of an imported file.
///
/// The corners of all meshes are taken in order; bit-identical vertices share
/// one entry of the result, and the result's indices refer to those entries.
pub fn build_mesh_data(meshes: &Vec<MeshAttributes>, color: [u32; 4]) -> (r: MeshData)
    requires
        corner_count(attribute_views(meshes@)) <= u32::MAX,
    ensures
        is_deduplication(
            all_corner_vertices(attribute_views(meshes@), color),
            views(r.vertices@),
            r.indices@,
        ),
{
    let mut corners: Vec<VertexKey> = Vec::new();
    let mut i: usize = 0;
    while i < meshes.len()
        invariant
            i <= meshes.len(),
            views(corners@) == all_corner_vertices(attribute_views(meshes@.take(i as int)), color),
        decreases meshes.len() - i,
    {
        let mut more = gather_vertices(&meshes[i], color);
        let ghost before = views(corners@);
        let ghost added = views(more@);
        corners.append(&mut more);
        assert(attribute_views(meshes@.take(i + 1)).drop_last() =~= attribute_views(meshes@.take(i as int)));
        assert(attribute_views(meshes@.take(i + 1)).last() == meshes@[i as int]@);
        assert(views(corners@) =~= before + added);
        i = i + 1;
    }
    assert(meshes@.take(i as int) =~= meshes@);
    proof {
        lemma_corner_count(attribute_views(meshes@), color);
    }
    let (vertices, indices) = deduplicate(&corners);
    MeshData { vertices, indices }
}

/// tobj's error for an OBJ text it cannot read.
#[verifier::external_type_specification]
#[verifier::external_body]
pub struct ExLoadError(tobj::LoadError);

/// tobj's material record; materials are not used here.
#[verifier::external_type_specification]
#[verifier::external_body]
pub struct ExMaterial(tobj::Material);

/// The path of a material library named in an OBJ text.
#[verifier::external_type_specification]
#[verifier::external_body]
pub struct ExPath(std::path::Path);

/// Whether the importer reads an OBJ text without error.
pub uninterp spec fn obj_loads(text: Seq<u8>) -> bool;

/// The attribute arrays of each mesh in an OBJ text, as the importer reads
/// them, with every NaN component in canonical form.
pub uninterp spec fn obj_meshes(text: Seq<u8>) -> Seq<(Seq<u32>, Seq<u32>, Seq<u32>, Seq<u32>)>;

/// The bits of a 32-bit float, with every NaN replaced by the quiet NaN
/// `0x7fc0_0000`; a NaN's sign and payload vary between machines.
pub open spec fn canonical_word(w: u32) -> u32 {
    if w & 0x7f80_0000u32 == 0x7f80_0000u32 && w & 0x007f_ffffu32 != 0 {
        0x7fc0_0000u32
    } else {
        w
    }
}

pub open spec fn canonical_words(ws: Seq<u32>) -> Seq<u32> {
    Seq::new(ws.len(), |i: int| canonical_word(ws[i]))
}

/// A mesh's attributes with canonical NaNs; the indices are left alone.
pub open spec fn canonical_mesh(m: (Seq<u32>, Seq<u32>, Seq<u32>, Seq<u32>)) -> (Seq<u32>, Seq<u32>, Seq<u32>, Seq<u32>) {
    (canonical_words(m.0), canonical_words(m.1), canonical_words(m.2), m.3)
}

pub open spec fn canonical_views(ms: Seq<(Seq<u32>, Seq<u32>, Seq<u32>, Seq<u32>)>) -> Seq<(Seq<u32>, Seq<u32>, Seq<u32>, Seq<u32>)> {
    Seq::new(ms.len(), |i: int| canonical_mesh(ms[i]))
}

fn canonical_copy(ws: &Vec<u32>) -> (r: Vec<u32>)
    ensures
        r@ == canonical_words(ws@),
{
    let mut out: Vec<u32> = Vec::new();
    let mut i: usize = 0;
    while i < ws.len()
        invariant
            i <= ws.len(),
            out@ == canonical_words(ws@).take(i as int),
        decreases ws.len() - i,
    {
        let w = ws[i];
        let c = if w & 0x7f80_0000u32 == 0x7f80_0000u32 && w & 0x007f_ffffu32 != 0 {
            0x7fc0_0000u32
        } else {
            w
        };
        out.push(c);
        i = i + 1;
        assert(out@ =~= canonical_words(ws@).take(i as int));
    }
    assert(out@ =~= canonical_words(ws@));
    out
}

fn plain_copy(ws: &Vec<u32>) -> (r: Vec<u32>)
    ensures
        r@ == ws@,
{
    let mut out: Vec<u32> = Vec::new();
    let mut i: usize = 0;
    while i < ws.len()
        invariant
            i <= ws.len(),
            out@ == ws@.take(i as int),
        decreases ws.len() - i,
    {
        out.push(ws[i]);
        i = i + 1;
        assert(out@ =~= ws@.take(i as int));
    }
    assert(out@ =~= ws@);
    out
}

/// The meshes with every NaN component in canonical form.
pub fn canonical_meshes(ms: &Vec<MeshAttributes>) -> (r: Vec<MeshAttributes>)
    ensures
        attribute_views(r@) == canonical_views(attribute_views(ms@)),
{
    let mut out: Vec<MeshAttributes> = Vec::new();
    let mut i: usize = 0;
    while i < ms.len()
        invariant
            i <= ms.len(),
            out.len() == i,
            attribute_views(out@) == canonical_views(attribute_views(ms@)).take(i as int),
        decreases ms.len() - i,
    {
        let m = &ms[i];
        let c = MeshAttributes {
            positions: canonical_copy(&m.positions),
            texcoords: canonical_copy(&m.texcoords),
            normals: canonical_copy(&m.normals),
            indices: plain_copy(&m.indices),
        };
        assert(c@ == canonical_mesh(ms@[i as int]@));
        let ghost before = out@;
        out.push(c);
        assert(out@ == before.push(c));
        i = i + 1;
        assert(attribute_views(out@) =~= canonical_views(attribute_views(ms@)).take(i as int)) by {
            assert forall|k: int| 0 <= k < i implies #[trigger] attribute_views(out@)[k]
                == canonical_views(attribute_views(ms@))[k] by {
                if k < i - 1 {
                    assert(out@[k] == before[k]);
                    assert(attribute_views(before)[k] == attribute_views(out@)[k]);
                }
            }
        }
    }
    assert(attribute_views(out@) =~= canonical_views(attribute_views(ms@)));
    out
}

pub open spec fn is_digit(b: u8) -> bool {
    48 <= b <= 57
}

/// The face field that follows the `/` at `i` is not negative and, after an
/// optional `+`, does not start with ten digits.
pub open spec fn field_bounded(t: Seq<u8>, i: int) -> bool {
    let start = if i + 1 < t.len() && t[i + 1] == 43u8 {
        i + 2
    } else {
        i + 1
    };
    &&& !(i + 1 < t.len() && t[i + 1] == 45u8)
    &&& !(start + 10 <= t.len() && forall|j: int| start <= j < start + 10 ==> is_digit(t[j]))
}

/// Every texture coordinate and normal reference of the text, the fields after
/// a `/`, is one the importer can resolve: the importer's bounds arithmetic on
/// a negative or very large one overflows.
pub open spec fn face_refs_bounded(t: Seq<u8>) -> bool {
    forall|i: int| 0 <= i < t.len() && t[i] == 47u8 ==> field_bounded(t, i)
}

fn field_is_bounded(t: &Vec<u8>, i: usize) -> (r: bool)
    requires
        i < t.len(),
    ensures
        r == field_bounded(t@, i as int),
{
    let n = t.len();
    if i + 1 < n && t[i + 1] == 45u8 {
        return false;
    }
    let start = if i + 1 < n && t[i + 1] == 43u8 {
        i + 2
    } else {
        i + 1
    };
    if n < 10 || start > n - 10 {
        return true;
    }
    let mut j: usize = 0;
    while j < 10
        invariant
            j <= 10,
            start + 10 <= n == t.len(),
            i < n,
            !(i + 1 < n && t@[i + 1] == 45u8),
            start == if i + 1 < n && t@[i + 1] == 43u8 {
                i + 2
            } else {
                i + 1
            },
            forall|q: int| start <= q < start + j ==> is_digit(t@[q]),
        decreases 10 - j,
    {
        let b = t[start + j];
        if !(48u8 <= b && b <= 57u8) {
            assert(!is_digit(t@[start + j]));
            return true;
        }
        j = j + 1;
    }
    false
}

/// Whether every `/`-field of the text is a reference the importer can resolve.
pub fn references_bounded(text: &Vec<u8>) -> (r: bool)
    ensures
        r == face_refs_bounded(text@),
{
    let mut i: usize = 0;
    while i < text.len()
        invariant
            i <= text.len(),
            forall|k: int| 0 <= k < i && text@[k] == 47u8 ==> field_bounded(text@, k),
        decreases text.len() - i,
    {
        if text[i] == 47u8 && !field_is_bounded(text, i) {
            return false;
        }
        i = i + 1;
    }
    true
}

/// Material libraries are not used: every one named by a mesh file reads as empty.
fn no_materials(_path: &std::path::Path) -> (r: tobj::MTLLoadResult)
    ensures
        r is Ok,
{
    Ok((Vec::new(), HashMap::new()))
}

/// Relies on tobj::load_obj_buf, with faces split into triangles: the meshes of
/// an OBJ text with their position, texture coordinate, normal and index arrays,
/// each float given by its bits. Success depends on the text alone, and so do
/// the bits once NaNs are made canonical.
#[verifier::external_body]
fn parse_obj(text: &Vec<u8>) -> (r: Result<Vec<MeshAttributes>, tobj::LoadError>)
    requires
        face_refs_bounded(text@),
    ensures
        r is Ok <==> obj_loads(text@),
        r matches Ok(ms) ==> canonical_views(attribute_views(ms@)) == obj_meshes(text@),
{
    let options = tobj::LoadOptions { triangulate: true, ..Default::default() };
    let (models, _) = tobj::load_obj_buf(&mut text.as_slice(), &options, no_materials)?;
    Ok(models.into_iter().map(|m| MeshAttributes {
        positions: m.mesh.positions.iter().map(|x| x.to_bits()).collect(),
        texcoords: m.mesh.texcoords.iter().map(|x| x.to_bits()).collect(),
        normals: m.mesh.normals.iter().map(|x| x.to_bits()).collect(),
        indices: m.mesh.indices,
    }).collect())
}

} // verus!
