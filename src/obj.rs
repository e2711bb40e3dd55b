use vstd::prelude::*;

verus! {

/// One triangle of an OBJ model: for each corner, the 1-based indices of
/// its position, texture coordinate and normal.
#[derive(Clone, Copy, Debug)]
pub struct Face {
    pub vertex: [i32; 3],
    pub texture: [i32; 3],
    pub normal: [i32; 3],
}

/// Index of the first `/` in `s` at or after `from`, or the length of `s`.
pub open spec fn next_slash(s: Seq<u8>, from: int) -> int
    decreases s.len() - from,
{
    if from < 0 || from >= s.len() {
        s.len() as int
    } else if s[from] == 0x2f {
        from
    } else {
        next_slash(s, from + 1)
    }
}

pub open spec fn is_digit(c: u8) -> bool {
    0x30 <= c <= 0x39
}

/// Value of a string of decimal digits.
pub open spec fn digits_value(s: Seq<u8>) -> int
    decreases s.len(),
{
    if s.len() == 0 {
        0
    } else {
        digits_value(s.drop_last()) * 10 + (s.last() - 0x30)
    }
}

/// The index that `s` writes: one or more decimal digits whose value fits
/// an `i32`.
pub open spec fn spec_index(s: Seq<u8>) -> Option<i32> {
    if s.len() > 0 && (forall|i: int| 0 <= i < s.len() ==> is_digit(#[trigger] s[i]))
        && digits_value(s) <= i32::MAX {
        Some(digits_value(s) as i32)
    } else {
        None
    }
}

/// The corner that an `f` line's group `v/t/n` writes: the first three
/// `/`-separated parts, each an index; later parts are ignored.
pub open spec fn spec_corner(s: Seq<u8>) -> Option<(i32, i32, i32)> {
    let p1 = next_slash(s, 0);
    let p2 = next_slash(s, p1 + 1);
    let p3 = next_slash(s, p2 + 1);
    if p1 < s.len() && p2 < s.len() {
        match (
            spec_index(s.subrange(0, p1)),
            spec_index(s.subrange(p1 + 1, p2)),
            spec_index(s.subrange(p2 + 1, p3)),
        ) {
            (Some(v), Some(t), Some(n)) => Some((v, t, n)),
            _ => None,
        }
    } else {
        None
    }
}

proof fn lemma_next_slash_bounds(s: Seq<u8>, from: int)
    requires
        0 <= from <= s.len(),
    ensures
        from <= next_slash(s, from) <= s.len(),
        next_slash(s, from) < s.len() ==> s[next_slash(s, from)] == 0x2f,
    decreases s.len() - from,
{
    if from < s.len() && s[from] != 0x2f {
        lemma_next_slash_bounds(s, from + 1);
    }
}

proof fn lemma_digits_grow(s: Seq<u8>, k: int)
    requires
        0 <= k <= s.len(),
        forall|i: int| 0 <= i < s.len() ==> is_digit(#[trigger] s[i]),
    ensures
        digits_value(s.subrange(0, k)) <= digits_value(s),
        digits_value(s) >= 0,
    decreases s.len(),
{
    if s.len() > 0 {
        let t = s.drop_last();
        assert forall|i: int| 0 <= i < t.len() implies is_digit(#[trigger] t[i]) by {
            assert(t[i] == s[i]);
        }
        if k < s.len() {
            lemma_digits_grow(t, k);
            assert(t.subrange(0, k) =~= s.subrange(0, k));
        } else {
            lemma_digits_grow(t, 0);
            assert(s.subrange(0, k) =~= s);
        }
    } else {
        assert(s.subrange(0, k) =~= s);
    }
}

fn find_slash(s: &[u8], from: usize) -> (r: usize)
    requires
        from <= s@.len(),
    ensures
        r == next_slash(s@, from as int),
{
    let mut i = from;
    while i < s.len()
        invariant
            from <= i <= s@.len(),
            next_slash(s@, from as int) == next_slash(s@, i as int),
        decreases s@.len() - i,
    {
        if s[i] == 0x2f {
            return i;
        }
        i = i + 1;
    }
    i
}

fn parse_index(s: &[u8], start: usize, end: usize) -> (r: Option<i32>)
    requires
        start <= end <= s@.len(),
    ensures
        r == spec_index(s@.subrange(start as int, end as int)),
{
    let ghost w = s@.subrange(start as int, end as int);
    if start == end {
        return None;
    }
    let mut acc: i32 = 0;
    let mut i = start;
    while i < end
        invariant
            start <= i <= end <= s@.len(),
            w == s@.subrange(start as int, end as int),
            forall|j: int| 0 <= j < i - start ==> is_digit(#[trigger] w[j]),
            acc as int == digits_value(w.subrange(0, i - start)),
            0 <= acc,
        decreases end - i,
    {
        let c = s[i];
        assert(w[i - start] == c);
        if c < 0x30 || c > 0x39 {
            return None;
        }
        proof {
            assert(w.subrange(0, i - start + 1).drop_last() =~= w.subrange(0, i - start));
        }
        let d = (c - 0x30) as i32;
        if acc > (i32::MAX - d) / 10 {
            proof {
                let k = i - start + 1;
                assert(digits_value(w.subrange(0, k)) == acc * 10 + d);
                if forall|j: int| 0 <= j < w.len() ==> is_digit(#[trigger] w[j]) {
                    lemma_digits_grow(w, k);
                }
            }
            return None;
        }
        acc = acc * 10 + d;
        i = i + 1;
    }
    assert(w.subrange(0, i - start) =~= w);
    Some(acc)
}

/// Reads the corner that an `f` line's group writes: position, texture
/// coordinate and normal indices, as in `12/7/3`.
pub fn parse_corner(group: &[u8]) -> (r: Option<(i32, i32, i32)>)
    ensures
        r == spec_corner(group@),
{
    let ghost s = group@;
    let p1 = find_slash(group, 0);
    proof { lemma_next_slash_bounds(s, 0); }
    if p1 >= group.len() {
        return None;
    }
    let p2 = find_slash(group, p1 + 1);
    proof { lemma_next_slash_bounds(s, p1 + 1); }
    if p2 >= group.len() {
        return None;
    }
    let p3 = find_slash(group, p2 + 1);
    proof { lemma_next_slash_bounds(s, p2 + 1); }
    match (parse_index(group, 0, p1), parse_index(group, p1 + 1, p2), parse_index(group, p2 + 1, p3)) {
        (Some(v), Some(t), Some(n)) => Some((v, t, n)),
        _ => None,
    }
}

/// Every corner index that `pick` selects from the faces names one of `n`
/// entries.
pub open spec fn corners_in_range(faces: Seq<Face>, n: int, texture: bool) -> bool {
    forall|f: int, i: int|
        0 <= f < faces.len() && 0 <= i < 3 ==> 1 <= #[trigger] corner(faces[f], i, texture) <= n
}

/// Corner `i` of face `f`: its position index, or its texture index.
pub open spec fn corner(f: Face, i: int, texture: bool) -> int {
    if texture {
        f.texture@[i] as int
    } else {
        f.vertex@[i] as int
    }
}

/// The per-corner list the model's faces give from the entries `items`:
/// corner `i` of face `f` stands at `3 * f + i`.
pub open spec fn is_corner_list<A>(r: Seq<A>, faces: Seq<Face>, items: Seq<A>, texture: bool) -> bool {
    &&& r.len() == 3 * faces.len()
    &&& forall|f: int, i: int|
        0 <= f < faces.len() && 0 <= i < 3 ==> #[trigger] r[3 * f + i] == items[corner(faces[f], i, texture) - 1]
}

/// A mesh as an OBJ file describes it: positions, normals, texture
/// coordinates and triangles that index them. `V` and `T` are the
/// renderer's vector types.
pub struct Model<V, T> {
    coords: Vec<V>,
    normals: Vec<V>,
    texture_coords: Vec<T>,
    faces: Vec<Face>,
}

fn corner_list<A: Copy>(faces: &Vec<Face>, items: &Vec<A>, texture: bool) -> (r: Option<Vec<A>>)
    ensures
        r is Some <==> corners_in_range(faces@, items@.len() as int, texture),
        r matches Some(v) ==> is_corner_list(v@, faces@, items@, texture),
{
    let mut out: Vec<A> = Vec::new();
    let mut f: usize = 0;
    while f < faces.len()
        invariant
            f <= faces@.len(),
            corners_in_range(faces@.subrange(0, f as int), items@.len() as int, texture),
            is_corner_list(out@, faces@.subrange(0, f as int), items@, texture),
        decreases faces@.len() - f,
    {
        let face = faces[f];
        let ids = if texture { face.texture } else { face.vertex };
        let mut i: usize = 0;
        while i < 3
            invariant
                f < faces@.len(),
                i <= 3,
                face == faces@[f as int],
                ids == (if texture { face.texture } else { face.vertex }),
                forall|j: int| 0 <= j < i ==> 1 <= #[trigger] corner(face, j, texture) <= items@.len(),
                out@.len() == 3 * f + i,
                forall|g: int, j: int|
                    0 <= g < f && 0 <= j < 3 ==> #[trigger] out@[3 * g + j] == items@[corner(faces@[g], j, texture) - 1],
                forall|j: int| 0 <= j < i ==> #[trigger] out@[3 * f + j] == items@[corner(face, j, texture) - 1],
            decreases 3 - i,
        {
            let id = ids[i];
            if id < 1 || id as usize > items.len() {
                assert(!corners_in_range(faces@, items@.len() as int, texture)) by {
                    assert(corner(faces@[f as int], i as int, texture) == id);
                }
                return None;
            }
            out.push(items[(id - 1) as usize]);
            i = i + 1;
        }
        proof {
            let next = faces@.subrange(0, f + 1);
            assert forall|g: int, j: int| 0 <= g < next.len() && 0 <= j < 3 implies 1 <= #[trigger] corner(next[g], j, texture) <= items@.len() by {
                if g < f {
                    assert(next[g] == faces@.subrange(0, f as int)[g]);
                }
            }
            assert forall|g: int, j: int| 0 <= g < next.len() && 0 <= j < 3 implies #[trigger] out@[3 * g + j] == items@[corner(next[g], j, texture) - 1] by {
                assert(next[g] == faces@[g]);
            }
        }
        f = f + 1;
    }
    assert(faces@.subrange(0, f as int) =~= faces@);
    Some(out)
}

impl<V: Copy, T: Copy> Model<V, T> {
    pub closed spec fn spec_coords(&self) -> Seq<V> {
        self.coords@
    }

    pub closed spec fn spec_normals(&self) -> Seq<V> {
        self.normals@
    }

    pub closed spec fn spec_texture_coords(&self) -> Seq<T> {
        self.texture_coords@
    }

    pub closed spec fn spec_faces(&self) -> Seq<Face> {
        self.faces@
    }

    /// A model with nothing in it, to be filled line by line.
    pub fn new() -> (r: Model<V, T>)
        ensures
            r.spec_coords().len() == 0,
            r.spec_normals().len() == 0,
            r.spec_texture_coords().len() == 0,
            r.spec_faces().len() == 0,
    {
        Model { coords: Vec::new(), normals: Vec::new(), texture_coords: Vec::new(), faces: Vec::new() }
    }

    /// A `v` line: one more position.
    pub fn add_coord(&mut self, v: V)
        ensures
            final(self).spec_coords() == old(self).spec_coords().push(v),
            final(self).spec_normals() == old(self).spec_normals(),
            final(self).spec_texture_coords() == old(self).spec_texture_coords(),
            final(self).spec_faces() == old(self).spec_faces(),
    {
        self.coords.push(v);
    }

    /// A `vn` line: one more normal.
    pub fn add_normal(&mut self, n: V)
        ensures
            final(self).spec_coords() == old(self).spec_coords(),
            final(self).spec_normals() == old(self).spec_normals().push(n),
            final(self).spec_texture_coords() == old(self).spec_texture_coords(),
            final(self).spec_faces() == old(self).spec_faces(),
    {
        self.normals.push(n);
    }

    /// A `vt` line: one more texture coordinate.
    pub fn add_texture_coord(&mut self, t: T)
        ensures
            final(self).spec_coords() == old(self).spec_coords(),
            final(self).spec_normals() == old(self).spec_normals(),
            final(self).spec_texture_coords() == old(self).spec_texture_coords().push(t),
            final(self).spec_faces() == old(self).spec_faces(),
    {
        self.texture_coords.push(t);
    }

    /// An `f` line: one more triangle.
    pub fn add_face(&mut self, face: Face)
        ensures
            final(self).spec_coords() == old(self).spec_coords(),
            final(self).spec_normals() == old(self).spec_normals(),
            final(self).spec_texture_coords() == old(self).spec_texture_coords(),
            final(self).spec_faces() == old(self).spec_faces().push(face),
    {
        self.faces.push(face);
    }

    /// The positions of the triangles' corners, three per face in face
    /// order; none if a face names a position that the model lacks.
    pub fn build(&self) -> (r: Option<Vec<V>>)
        ensures
            r is Some <==> corners_in_range(self.spec_faces(), self.spec_coords().len() as int, false),
            r matches Some(v) ==> is_corner_list(v@, self.spec_faces(), self.spec_coords(), false),
    {
        corner_list(&self.faces, &self.coords, false)
    }

    /// The texture coordinates of the triangles' corners, three per face in
    /// face order; none if a face names one that the model lacks.
    pub fn build_tex_coord(&self) -> (r: Option<Vec<T>>)
        ensures
            r is Some <==> corners_in_range(self.spec_faces(), self.spec_texture_coords().len() as int, true),
            r matches Some(v) ==> is_corner_list(v@, self.spec_faces(), self.spec_texture_coords(), true),
    {
        corner_list(&self.faces, &self.texture_coords, true)
    }
}

} // verus!
