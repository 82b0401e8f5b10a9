//! Shader programs as the engine sees them: two composed fragment-shader
//! sources (the sprite and texture variants) and a named uniform dictionary.
//! Compilation of the composed sources is the backend's job.

use vstd::prelude::*;
use crate::scalar::{Mat4, Point, Scalar, SCALAR_ONE, spec_identity_cells};
use crate::color::Color;

verus! {

/// A value bound to a uniform name before a draw.
#[derive(Clone, Copy, PartialEq, Eq, Debug)]
pub enum Uniform {
    /// An explicit transformation matrix.
    Matrix(Mat4),
    /// A viewport matrix to be derived from the given target dimensions.
    Viewport(Scalar, Scalar),
    /// A color multiplicator.
    ColorValue(Color),
    /// A single scalar payload.
    Value(Scalar),
    /// A point (two scalar payloads).
    PointValue(Point),
    /// An unsigned integer.
    Unsigned(u32),
    /// A signed integer.
    Signed(i32),
    /// A boolean flag.
    Flag(bool),
}

/// The uniform dictionary as a mathematical map from name to value.
pub open spec fn assoc_map(s: Seq<(String, Uniform)>) -> Map<Seq<char>, Uniform>
    decreases s.len(),
{
    if s.len() == 0 {
        Map::empty()
    } else {
        assoc_map(s.drop_last()).insert(s.last().0@, s.last().1)
    }
}

/// Every name occurs at most once.
pub open spec fn unique_keys(s: Seq<(String, Uniform)>) -> bool {
    forall|i: int, j: int|
        0 <= i < j < s.len() ==> s[i].0@ != s[j].0@
}

/// Some entry carries the name.
pub open spec fn has_key(s: Seq<(String, Uniform)>, name: Seq<char>) -> bool {
    exists|i: int| 0 <= i < s.len() && s[i].0@ == name
}

/// The dictionary holds a name exactly when some entry carries it.
proof fn lemma_assoc_contains(s: Seq<(String, Uniform)>)
    ensures
        forall|k: Seq<char>| #[trigger] assoc_map(s).contains_key(k) <==> has_key(s, k),
    decreases s.len(),
{
    if s.len() > 0 {
        lemma_assoc_contains(s.drop_last());
        assert forall|k: Seq<char>| #[trigger]
            assoc_map(s).contains_key(k) <==> has_key(s, k) by {
            if assoc_map(s).contains_key(k) {
                if k == s.last().0@ {
                    assert(s[s.len() - 1].0@ == k);
                } else {
                    assert(assoc_map(s.drop_last()).contains_key(k));
                    assert(has_key(s.drop_last(), k));
                    let i = choose|i: int|
                        0 <= i < s.drop_last().len() && s.drop_last()[i].0@ == k;
                    assert(s.drop_last()[i] == s[i]);
                    assert(s[i].0@ == k);
                }
            }
            if has_key(s, k) {
                let i = choose|i: int| 0 <= i < s.len() && s[i].0@ == k;
                if i < s.len() - 1 {
                    assert(s.drop_last()[i].0@ == k);
                    assert(has_key(s.drop_last(), k));
                    assert(assoc_map(s.drop_last()).contains_key(k));
                    assert(assoc_map(s).contains_key(k));
                } else {
                    assert(k == s.last().0@);
                    assert(assoc_map(s).contains_key(k));
                }
            }
        }
    }
}

/// An entry's value is what the dictionary maps its name to.
proof fn lemma_assoc_get(s: Seq<(String, Uniform)>, i: int)
    requires
        unique_keys(s),
        0 <= i < s.len(),
    ensures
        assoc_map(s).contains_key(s[i].0@),
        assoc_map(s)[s[i].0@] == s[i].1,
    decreases s.len(),
{
    lemma_assoc_contains(s);
    if i == s.len() - 1 {
    } else {
        assert(s.drop_last()[i] == s[i]);
        lemma_assoc_get(s.drop_last(), i);
        assert(s[i].0@ != s.last().0@);
    }
}

/// Replacing the entry that carries a name, value for value, is the map's
/// insert at that name.
proof fn lemma_assoc_update(s: Seq<(String, Uniform)>, i: int, p: (String, Uniform))
    requires
        unique_keys(s),
        0 <= i < s.len(),
        p.0@ == s[i].0@,
    ensures
        assoc_map(s.update(i, p)) == assoc_map(s).insert(p.0@, p.1),
    decreases s.len(),
{
    let s2 = s.update(i, p);
    if i == s.len() - 1 {
        assert(s2.drop_last() =~= s.drop_last());
        assert(s2.last() == p);
        assert(assoc_map(s2) =~= assoc_map(s).insert(p.0@, p.1));
    } else {
        assert(s2.drop_last() =~= s.drop_last().update(i, p));
        assert(s.drop_last()[i] == s[i]);
        lemma_assoc_update(s.drop_last(), i, p);
        assert(s2.last() == s.last());
        assert(p.0@ != s.last().0@);
        assert(assoc_map(s2) =~= assoc_map(s).insert(p.0@, p.1));
    }
}

/// Removing the entry that carries a name is the map's remove at that name.
proof fn lemma_assoc_remove(s: Seq<(String, Uniform)>, i: int)
    requires
        unique_keys(s),
        0 <= i < s.len(),
    ensures
        assoc_map(s.remove(i)) == assoc_map(s).remove(s[i].0@),
    decreases s.len(),
{
    lemma_assoc_contains(s.drop_last());
    if i == s.len() - 1 {
        assert(s.remove(i) =~= s.drop_last());
        assert(!has_key(s.drop_last(), s[i].0@));
        assert(assoc_map(s.remove(i)) =~= assoc_map(s).remove(s[i].0@));
    } else {
        let s2 = s.remove(i);
        assert(s2.drop_last() =~= s.drop_last().remove(i));
        assert(s.drop_last()[i] == s[i]);
        lemma_assoc_remove(s.drop_last(), i);
        assert(s2.last() == s.last());
        assert(s[i].0@ != s.last().0@);
        assert(assoc_map(s2) =~= assoc_map(s).remove(s[i].0@));
    }
}

// ---------------------------------------------------------------------------
// Shader source composition
// ---------------------------------------------------------------------------

/// Index of the first line break, or the length when there is none.
pub open spec fn first_newline(s: Seq<char>) -> nat
    decreases s.len(),
{
    if s.len() == 0 {
        0
    } else if s[0] == '\n' {
        0
    } else {
        1 + first_newline(s.skip(1))
    }
}

/// A line as the source text carries it, with a carriage return before the
/// break removed.
pub open spec fn strip_cr(line: Seq<char>) -> Seq<char> {
    if line.len() > 0 && line.last() == '\r' {
        line.drop_last()
    } else {
        line
    }
}

/// Whether a line opens with a directive mark.
pub open spec fn starts_hash(line: Seq<char>) -> bool {
    line.len() > 0 && line[0] == '#'
}

/// The source with the template spliced in: every line reappears with a
/// plain line break, and after each directive line — the version directive
/// among them — the template follows.
pub open spec fn spec_compose(src: Seq<char>, tmpl: Seq<char>) -> Seq<char>
    decreases src.len(),
{
    if src.len() == 0 {
        Seq::empty()
    } else {
        let i = first_newline(src);
        let line = strip_cr(src.take(i as int));
        let rest = if i < src.len() {
            src.skip(i as int + 1)
        } else {
            Seq::<char>::empty()
        };
        line + seq!['\n'] + (if starts_hash(line) {
            tmpl
        } else {
            Seq::<char>::empty()
        }) + spec_compose(rest, tmpl)
    }
}

/// Whether any line of the source opens with a directive mark.
pub open spec fn spec_has_directive(src: Seq<char>) -> bool
    decreases src.len(),
{
    if src.len() == 0 {
        false
    } else {
        let i = first_newline(src);
        let line = strip_cr(src.take(i as int));
        let rest = if i < src.len() {
            src.skip(i as int + 1)
        } else {
            Seq::<char>::empty()
        };
        starts_hash(line) || spec_has_directive(rest)
    }
}

/// `first_newline` points at the first line break: nothing before it is one,
/// and it is one unless the text ends first.
proof fn lemma_first_newline(s: Seq<char>)
    ensures
        first_newline(s) <= s.len(),
        first_newline(s) < s.len() ==> s[first_newline(s) as int] == '\n',
        forall|k: int| 0 <= k < first_newline(s) ==> s[k] != '\n',
    decreases s.len(),
{
    if s.len() > 0 && s[0] != '\n' {
        lemma_first_newline(s.skip(1));
        let f = first_newline(s);
        assert(f == 1 + first_newline(s.skip(1)));
        assert forall|k: int| 0 <= k < f implies s[k] != '\n' by {
            if k > 0 {
                assert(s.skip(1)[k - 1] == s[k]);
            }
        }
        if f < s.len() {
            assert(s.skip(1)[f - 1] == s[f as int]);
        }
    }
}

/// An index with the same two properties is the first line break.
proof fn lemma_first_newline_unique(s: Seq<char>, j: nat)
    requires
        j <= s.len(),
        j < s.len() ==> s[j as int] == '\n',
        forall|k: int| 0 <= k < j ==> s[k] != '\n',
    ensures
        j == first_newline(s),
{
    lemma_first_newline(s);
    let f = first_newline(s);
    if j < f {
        assert(s[j as int] != '\n');
        assert(j < s.len());
        assert(false);
    }
    if f < j {
        assert(s[f as int] != '\n');
        assert(f < s.len());
        assert(false);
    }
}

/// Splices the template into the source and reports whether any directive
/// line received it.
fn compose_source(src: &str, tmpl: &str) -> (r: (String, bool))
    ensures
        r.0@ == spec_compose(src@, tmpl@),
        r.1 == spec_has_directive(src@),
    decreases src@.len(),
{
    let n = src.unicode_len();
    if n == 0 {
        return (String::new(), false);
    }
    let mut j: usize = 0;
    while j < n && src.get_char(j) != '\n'
        invariant
            n == src@.len(),
            0 <= j <= n,
            forall|k: int| 0 <= k < j ==> src@[k] != '\n',
        decreases n - j,
    {
        j = j + 1;
    }
    proof {
        lemma_first_newline_unique(src@, j as nat);
    }
    let line_end: usize = if j > 0 && src.get_char(j - 1) == '\r' {
        j - 1
    } else {
        j
    };
    let line = src.substring_char(0, line_end);
    proof {
        assert(line@ =~= strip_cr(src@.take(j as int)));
    }
    let is_hash = line_end > 0 && src.get_char(0) == '#';
    let mut out: String = line.to_owned();
    out.append("\n");
    proof {
        reveal_strlit("\n");
        assert("\n"@ =~= seq!['\n']);
    }
    if is_hash {
        out.append(tmpl);
    }
    if j < n {
        let rest = src.substring_char(j + 1, n);
        let sub = compose_source(rest, tmpl);
        let mut out = out;
        out.append(sub.0.as_str());
        proof {
            assert(rest@ =~= src@.skip(j + 1));
            assert(out@ =~= spec_compose(src@, tmpl@));
        }
        (out, is_hash || sub.1)
    } else {
        proof {
            assert(spec_compose(Seq::<char>::empty(), tmpl@) == Seq::<char>::empty());
            assert(!spec_has_directive(Seq::<char>::empty()));
            assert(out@ =~= spec_compose(src@, tmpl@));
        }
        (out, is_hash)
    }
}

/// Splices the boilerplate template into a fragment-shader source: after
/// each directive line (`#version ...` among them) the template is inserted.
/// The source must carry a directive line; see
/// [`try_insert_template`] for the checking form.
pub fn insert_template(source: &str, template: &str) -> (r: String)
    requires
        spec_has_directive(source@),
    ensures
        r@ == spec_compose(source@, template@),
{
    let (out, _has) = compose_source(source, template);
    out
}

/// The checking form of [`insert_template`]: rejects, as a shader error, a
/// source without any directive line, and composes exactly the sources that
/// carry one.
pub fn try_insert_template(source: &str, template: &str) -> (r: Result<String, crate::Error>)
    ensures
        r is Ok <==> spec_has_directive(source@),
        r matches Ok(s) ==> s@ == spec_compose(source@, template@),
        r matches Err(e) ==> e is ShaderError,
{
    let (out, has) = compose_source(source, template);
    if has {
        Ok(out)
    } else {
        Err(crate::Error::ShaderError("missing version directive".to_owned()))
    }
}

/// A shader program: its two composed fragment-shader sources and its own
/// copy of the uniform dictionary.
#[derive(Debug)]
pub struct Program {
    uniforms: Vec<(String, Uniform)>,
    sprite_source: String,
    texture_source: String,
}

impl Program {
    /// The uniform dictionary.
    pub closed spec fn spec_uniforms(&self) -> Map<Seq<char>, Uniform> {
        assoc_map(self.uniforms@)
    }

    /// The dictionary holds each name once.
    pub closed spec fn wf(&self) -> bool {
        unique_keys(self.uniforms@)
    }

    /// The composed source of the sprite-shader variant.
    pub closed spec fn spec_sprite_source(&self) -> Seq<char> {
        self.sprite_source@
    }

    /// The composed source of the texture-shader variant.
    pub closed spec fn spec_texture_source(&self) -> Seq<char> {
        self.texture_source@
    }

    /// The built-in uniforms every program starts with: a unit viewport view,
    /// an identity model matrix and a white color multiplicator.
    pub open spec fn default_uniforms() -> Map<Seq<char>, Uniform> {
        Map::empty()
            .insert("u_view"@, Uniform::Viewport(SCALAR_ONE, SCALAR_ONE))
            .insert("u_model"@, Uniform::Matrix(Mat4 { cells: spec_identity_cells() }))
            .insert("_rd_color"@, Uniform::ColorValue(Color(SCALAR_ONE, SCALAR_ONE, SCALAR_ONE, SCALAR_ONE)))
    }

    /// Builds a program from two already composed shader sources, seeding the
    /// built-in uniforms.
    pub fn from_sources(sprite_source: String, texture_source: String) -> (p: Program)
        ensures
            p.spec_uniforms() == Self::default_uniforms(),
            p.spec_sprite_source() == sprite_source@,
            p.spec_texture_source() == texture_source@,
            p.wf(),
    {
        let mut uniforms: Vec<(String, Uniform)> = Vec::new();
        let u_view: String = "u_view".to_owned();
        let u_model: String = "u_model".to_owned();
        let u_color: String = "_rd_color".to_owned();
        proof {
            reveal_strlit("u_view");
            reveal_strlit("u_model");
            reveal_strlit("_rd_color");
        }
        uniforms.push((u_view, Uniform::Viewport(SCALAR_ONE, SCALAR_ONE)));
        uniforms.push((u_model, Uniform::Matrix(Mat4::identity())));
        uniforms.push((u_color, Uniform::ColorValue(Color::white())));
        let p = Program { uniforms, sprite_source, texture_source };
        proof {
            let s = p.uniforms@;
            let s2 = s.drop_last();
            let s1 = s2.drop_last();
            let s0 = s1.drop_last();
            assert(s0 =~= Seq::<(String, Uniform)>::empty());
            assert(s1.last() == s[0]);
            assert(s2.last() == s[1]);
            assert(s.last() == s[2]);
            assert(assoc_map(s0) =~= Map::<Seq<char>, Uniform>::empty());
            assert(assoc_map(s1) =~= Map::<Seq<char>, Uniform>::empty().insert(s[0].0@, s[0].1));
            assert(assoc_map(s2) =~= assoc_map(s1).insert(s[1].0@, s[1].1));
            assert(assoc_map(s) =~= assoc_map(s2).insert(s[2].0@, s[2].1));
            assert(p.spec_uniforms() =~= Self::default_uniforms());
            assert(s[0].0@.len() == 6);
            assert(s[1].0@.len() == 7);
            assert(s[2].0@.len() == 9);
            assert forall|i: int, j: int| 0 <= i < j < s.len() implies s[i].0@ != s[j].0@ by {
                assert(s[i].0@.len() != s[j].0@.len());
            }
        }
        p
    }

    /// Builds a program from a fragment-shader source: the boilerplate
    /// templates for the sprite and texture variants are spliced in after
    /// the source's directive lines, and the built-in uniforms are seeded.
    /// Rejects, as a shader error, a source without a version directive.
    pub fn new(source: &str, sprite_template: &str, texture_template: &str) -> (r: Result<
        Program,
        crate::Error,
    >)
        ensures
            r is Ok <==> spec_has_directive(source@),
            r matches Ok(p) ==> {
                &&& p.spec_sprite_source() == spec_compose(source@, sprite_template@)
                &&& p.spec_texture_source() == spec_compose(source@, texture_template@)
                &&& p.spec_uniforms() == Self::default_uniforms()
                &&& p.wf()
            },
            r matches Err(e) ==> e is ShaderError,
    {
        let sprite_fs = match try_insert_template(source, sprite_template) {
            Ok(s) => s,
            Err(e) => {
                return Err(e);
            }
        };
        let texture_fs = match try_insert_template(source, texture_template) {
            Ok(s) => s,
            Err(e) => {
                return Err(e);
            }
        };
        Ok(Self::from_sources(sprite_fs, texture_fs))
    }

    /// Builds a program from a fragment-shader source string; see
    /// [`Program::new`].
    pub fn from_string(source: &str, sprite_template: &str, texture_template: &str) -> (r:
        Result<Program, crate::Error>)
        ensures
            r is Ok <==> spec_has_directive(source@),
            r matches Ok(p) ==> {
                &&& p.spec_sprite_source() == spec_compose(source@, sprite_template@)
                &&& p.spec_texture_source() == spec_compose(source@, texture_template@)
                &&& p.spec_uniforms() == Self::default_uniforms()
                &&& p.wf()
            },
            r matches Err(e) ==> e is ShaderError,
    {
        Self::new(source, sprite_template, texture_template)
    }

    /// The composed sprite-shader source, for the backend to compile.
    pub fn sprite_source(&self) -> (s: &String)
        ensures
            s@ == self.spec_sprite_source(),
    {
        &self.sprite_source
    }

    /// The composed texture-shader source, for the backend to compile.
    pub fn texture_source(&self) -> (s: &String)
        ensures
            s@ == self.spec_texture_source(),
    {
        &self.texture_source
    }

    /// The position of the entry carrying the name, if any.
    fn find_uniform(&self, name: &String) -> (r: Option<usize>)
        requires
            self.wf(),
        ensures
            r matches Some(i) ==> i < self.uniforms@.len() && self.uniforms@[i as int].0@
                == name@,
            r is None ==> !has_key(self.uniforms@, name@),
    {
        let n = self.uniforms.len();
        let mut i: usize = 0;
        while i < n
            invariant
                n == self.uniforms@.len(),
                0 <= i <= n,
                forall|j: int| 0 <= j < i ==> self.uniforms@[j].0@ != name@,
            decreases n - i,
        {
            if self.uniforms[i].0 == *name {
                return Some(i);
            }
            i = i + 1;
        }
        None
    }

    /// Binds a value to a uniform name, replacing any previous binding.
    pub fn set_uniform(&mut self, name: &str, value: Uniform)
        requires
            old(self).wf(),
            old(self).spec_uniforms().dom().len() < usize::MAX,
        ensures
            final(self).spec_uniforms() == old(self).spec_uniforms().insert(name@, value),
            final(self).spec_sprite_source() == old(self).spec_sprite_source(),
            final(self).spec_texture_source() == old(self).spec_texture_source(),
            final(self).wf(),
    {
        let owned: String = name.to_owned();
        match self.find_uniform(&owned) {
            Some(i) => {
                proof {
                    lemma_assoc_update(
                        self.uniforms@,
                        i as int,
                        (owned, value),
                    );
                }
                self.uniforms.remove(i);
                self.uniforms.insert(i, (owned, value));
                proof {
                    assert(self.uniforms@ =~= old(self).uniforms@.update(
                        i as int,
                        (owned, value),
                    ));
                    assert forall|a: int, b: int|
                        0 <= a < b < self.uniforms@.len() implies self.uniforms@[a].0@
                        != self.uniforms@[b].0@ by {
                        assert(old(self).uniforms@[a].0@ != old(self).uniforms@[b].0@);
                    }
                }
            }
            None => {
                proof {
                    lemma_assoc_contains(self.uniforms@);
                }
                self.uniforms.push((owned, value));
                proof {
                    assert(self.uniforms@.drop_last() =~= old(self).uniforms@);
                    assert forall|a: int, b: int|
                        0 <= a < b < self.uniforms@.len() implies self.uniforms@[a].0@
                        != self.uniforms@[b].0@ by {
                        if b < self.uniforms@.len() - 1 {
                            assert(old(self).uniforms@[a].0@ != old(self).uniforms@[b].0@);
                        } else {
                            assert(self.uniforms@[a].0@ != name@);
                        }
                    }
                }
            }
        }
    }

    /// Unbinds a uniform name; reports whether it was bound.
    pub fn remove_uniform(&mut self, name: &str) -> (was_bound: bool)
        requires
            old(self).wf(),
        ensures
            was_bound == old(self).spec_uniforms().contains_key(name@),
            final(self).spec_uniforms() == old(self).spec_uniforms().remove(name@),
            final(self).spec_sprite_source() == old(self).spec_sprite_source(),
            final(self).spec_texture_source() == old(self).spec_texture_source(),
            final(self).wf(),
    {
        let owned: String = name.to_owned();
        proof {
            lemma_assoc_contains(self.uniforms@);
        }
        match self.find_uniform(&owned) {
            Some(i) => {
                proof {
                    lemma_assoc_remove(self.uniforms@, i as int);
                }
                self.uniforms.remove(i);
                proof {
                    assert forall|a: int, b: int|
                        0 <= a < b < self.uniforms@.len() implies self.uniforms@[a].0@
                        != self.uniforms@[b].0@ by {
                        let a0: int = if a < i { a } else { a + 1 };
                        let b0: int = if b < i { b } else { b + 1 };
                        assert(old(self).uniforms@[a0].0@ != old(self).uniforms@[b0].0@);
                    }
                }
                true
            }
            None => {
                proof {
                    assert(final(self).spec_uniforms() =~= old(self).spec_uniforms().remove(
                        name@,
                    ));
                }
                false
            }
        }
    }

    /// The value bound to a uniform name, if any.
    pub fn get_uniform(&self, name: &str) -> (r: Option<&Uniform>)
        requires
            self.wf(),
        ensures
            r matches Some(v) ==> self.spec_uniforms().contains_key(name@)
                && *v == self.spec_uniforms()[name@],
            r is None ==> !self.spec_uniforms().contains_key(name@),
    {
        let owned: String = name.to_owned();
        proof {
            lemma_assoc_contains(self.uniforms@);
        }
        match self.find_uniform(&owned) {
            Some(i) => {
                proof {
                    lemma_assoc_get(self.uniforms@, i as int);
                }
                Some(&self.uniforms[i].1)
            }
            None => None,
        }
    }
}

} // verus!
