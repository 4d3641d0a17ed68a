//! Mesh descriptors, the meshes made from them, and the rule that puts the
//! geometries of a source in the order in which the descriptor declares them.

use vstd::prelude::*;
use crate::error::{MeshError, MeshErrorView};
use crate::geometry::{GeometryBuf, GeometryDescriptor};
use crate::names::{GeometryName, MeshName, NamedHandle};

verus! {

/// Where the vertices of a mesh come from.
#[derive(Debug)]
pub enum VerticesSource {
    /// A Wavefront file, by its path relative to the directory of meshes.
    Obj(String),
}

/// Describes a mesh: its name, its source and the geometries that the
/// source is expected to hold, in the order in which they are to be drawn.
#[derive(Debug)]
pub struct MeshDescriptor {
    pub name: String,
    pub source: VerticesSource,
    pub geometries: Vec<GeometryDescriptor>,
}

/// The names of the items of `items`, in their order.
pub open spec fn names_of<N: NamedHandle<GeometryName>>(items: Seq<N>) -> Seq<Seq<char>> {
    Seq::new(items.len(), |i: int| items[i].spec_name()@)
}

/// The test "is called `name`".
pub open spec fn is_named<N: NamedHandle<GeometryName>>(name: Seq<char>) -> spec_fn(N) -> bool {
    |item: N| item.spec_name()@ == name
}

/// The test "is not called `name`".
pub open spec fn is_not_named<N: NamedHandle<GeometryName>>(name: Seq<char>) -> spec_fn(N) -> bool {
    |item: N| item.spec_name()@ != name
}

/// The test "is called like none of `declared`".
pub open spec fn is_undeclared<N: NamedHandle<GeometryName>>(declared: Seq<Seq<char>>) -> spec_fn(
    N,
) -> bool {
    |item: N| !declared.contains(item.spec_name()@)
}

/// `decoded` in the order of `declared`: first the items called like the
/// first declared name, then the others by the names that follow. Items of
/// one name keep the order they came in; items that no name claims are left
/// out.
pub open spec fn arranged<N: NamedHandle<GeometryName>>(
    declared: Seq<Seq<char>>,
    decoded: Seq<N>,
) -> Seq<N>
    decreases declared.len(),
{
    if declared.len() == 0 {
        Seq::empty()
    } else {
        decoded.filter(is_named(declared[0])) + arranged(
            declared.drop_first(),
            decoded.filter(is_not_named(declared[0])),
        )
    }
}

/// What is left of `decoded` once each declared name has claimed its items.
spec fn unclaimed<N: NamedHandle<GeometryName>>(declared: Seq<Seq<char>>, decoded: Seq<N>) -> Seq<
    N,
>
    decreases declared.len(),
{
    if declared.len() == 0 {
        decoded
    } else {
        unclaimed(declared.drop_first(), decoded.filter(is_not_named(declared[0])))
    }
}

/// Filtering by two tests that agree on every item gives the same.
proof fn lemma_filter_agree<A>(s: Seq<A>, p: spec_fn(A) -> bool, q: spec_fn(A) -> bool)
    requires
        forall|x: A| #[trigger] p(x) == q(x),
    ensures
        s.filter(p) == s.filter(q),
    decreases s.len(),
{
    reveal(Seq::filter);
    if s.len() > 0 {
        lemma_filter_agree(s.drop_last(), p, q);
    }
}

/// Filtering twice is filtering by both tests at once.
proof fn lemma_filter_twice<A>(
    s: Seq<A>,
    p: spec_fn(A) -> bool,
    q: spec_fn(A) -> bool,
    both: spec_fn(A) -> bool,
)
    requires
        forall|x: A| #[trigger] both(x) == (p(x) && q(x)),
    ensures
        s.filter(p).filter(q) == s.filter(both),
    decreases s.len(),
{
    reveal(Seq::filter);
    if s.len() > 0 {
        lemma_filter_twice(s.drop_last(), p, q, both);
        let init = s.drop_last().filter(p);
        if p(s.last()) {
            assert(init.push(s.last()).drop_last() == init);
        }
    }
}

/// A test that every item passes filters nothing out.
proof fn lemma_filter_all<A>(s: Seq<A>, p: spec_fn(A) -> bool)
    requires
        forall|x: A| #[trigger] p(x),
    ensures
        s.filter(p) == s,
    decreases s.len(),
{
    reveal(Seq::filter);
    if s.len() > 0 {
        lemma_filter_all(s.drop_last(), p);
        assert(s.drop_last().push(s.last()) == s);
    }
}

/// What no declared name claims is what is called like none of them.
proof fn lemma_unclaimed_is_undeclared<N: NamedHandle<GeometryName>>(
    declared: Seq<Seq<char>>,
    decoded: Seq<N>,
)
    ensures
        unclaimed(declared, decoded) == decoded.filter(is_undeclared(declared)),
    decreases declared.len(),
{
    if declared.len() == 0 {
        lemma_filter_all(decoded, is_undeclared::<N>(declared));
    } else {
        let tail = declared.drop_first();
        lemma_unclaimed_is_undeclared(tail, decoded.filter(is_not_named(declared[0])));
        assert forall|x: N|
            #[trigger] is_undeclared::<N>(declared)(x) == (is_not_named::<N>(declared[0])(x)
                && is_undeclared::<N>(tail)(x)) by {
            let name = x.spec_name()@;
            if declared.contains(name) {
                let i = choose|i: int| 0 <= i < declared.len() && declared[i] == name;
                if i > 0 {
                    assert(tail[i - 1] == name);
                }
            }
            if tail.contains(name) {
                let i = choose|i: int| 0 <= i < tail.len() && tail[i] == name;
                assert(declared[i + 1] == name);
            }
        }
        lemma_filter_twice(
            decoded,
            is_not_named(declared[0]),
            is_undeclared(tail),
            is_undeclared(declared),
        );
    }
}

/// A test and its opposite part a sequence in two: each item is in one part.
proof fn lemma_filter_parts<A>(s: Seq<A>, p: spec_fn(A) -> bool, q: spec_fn(A) -> bool)
    requires
        forall|x: A| #[trigger] q(x) == !p(x),
    ensures
        s.filter(p).to_multiset().add(s.filter(q).to_multiset()) == s.to_multiset(),
    decreases s.len(),
{
    broadcast use vstd::multiset::group_multiset_axioms;

    reveal(Seq::filter);
    if s.len() == 0 {
        assert(s.to_multiset().len() == 0) by {
            vstd::seq_lib::to_multiset_len(s);
        }
        assert(s.filter(p).to_multiset().add(s.filter(q).to_multiset()) =~= s.to_multiset());
    } else {
        let init = s.drop_last();
        let last = s.last();
        lemma_filter_parts(init, p, q);
        assert(init.push(last) == s);
        vstd::seq_lib::to_multiset_build(init, last);
        vstd::seq_lib::to_multiset_build(init.filter(p), last);
        vstd::seq_lib::to_multiset_build(init.filter(q), last);
        assert(s.filter(p).to_multiset().add(s.filter(q).to_multiset()) =~= s.to_multiset());
    }
}

/// Where the source holds declared geometries only, arranging loses none
/// and adds none: each item comes out as often as it went in.
pub proof fn lemma_arranged_keeps_all<N: NamedHandle<GeometryName>>(
    declared: Seq<Seq<char>>,
    decoded: Seq<N>,
)
    requires
        decoded.filter(is_undeclared(declared)).len() == 0,
    ensures
        arranged(declared, decoded).to_multiset() == decoded.to_multiset(),
    decreases declared.len(),
{
    broadcast use vstd::multiset::group_multiset_axioms;

    lemma_unclaimed_is_undeclared(declared, decoded);
    if declared.len() == 0 {
        assert(decoded =~= Seq::<N>::empty());
    } else {
        let tail = declared.drop_first();
        let others = decoded.filter(is_not_named(declared[0]));
        lemma_unclaimed_is_undeclared(tail, others);
        lemma_arranged_keeps_all(tail, others);
        lemma_filter_parts(decoded, is_named::<N>(declared[0]), is_not_named::<N>(declared[0]));
        vstd::seq_lib::lemma_multiset_commutative(
            decoded.filter(is_named(declared[0])),
            arranged(tail, others),
        );
    }
}

/// The place of a name among the declared ones: that of its first
/// occurrence, and their number where it does not occur.
pub open spec fn place(declared: Seq<Seq<char>>, name: Seq<char>) -> int
    decreases declared.len(),
{
    if declared.len() == 0 {
        0
    } else if declared[0] == name {
        0
    } else {
        1 + place(declared.drop_first(), name)
    }
}

/// Arranging follows the declaration: every item that comes out came in
/// and bears a declared name, and of two items the one whose name is
/// declared first comes out first.
pub proof fn lemma_arranged_follows_declaration<N: NamedHandle<GeometryName>>(
    declared: Seq<Seq<char>>,
    decoded: Seq<N>,
)
    ensures
        forall|k: int|
            0 <= k < arranged(declared, decoded).len() ==> decoded.contains(
                #[trigger] arranged(declared, decoded)[k],
            ),
        forall|k: int|
            0 <= k < arranged(declared, decoded).len() ==> 0 <= place(
                declared,
                (#[trigger] arranged(declared, decoded)[k]).spec_name()@,
            ) < declared.len(),
        forall|i: int, j: int|
            0 <= i <= j < arranged(declared, decoded).len() ==> place(
                declared,
                (#[trigger] arranged(declared, decoded)[i]).spec_name()@,
            ) <= place(declared, (#[trigger] arranged(declared, decoded)[j]).spec_name()@),
    decreases declared.len(),
{
    if declared.len() > 0 {
        let first = declared[0];
        let tail = declared.drop_first();
        let named = decoded.filter(is_named(first));
        let others = decoded.filter(is_not_named(first));
        let rest = arranged(tail, others);
        let out = arranged(declared, decoded);
        lemma_arranged_follows_declaration(tail, others);
        assert(out == named + rest);
        assert forall|k: int| 0 <= k < out.len() implies decoded.contains(#[trigger] out[k]) && 0
            <= place(declared, out[k].spec_name()@) < declared.len() && (k < named.len()
            ==> place(declared, out[k].spec_name()@) == 0) && (k >= named.len() ==> place(
            declared,
            out[k].spec_name()@,
        ) == 1 + place(tail, rest[k - named.len()].spec_name()@)) by {
            if k < named.len() {
                assert(out[k] == named[k]);
                decoded.lemma_filter_pred(is_named(first), k);
                assert(named.contains(named[k]));
                decoded.lemma_filter_contains_rev(is_named(first), named[k]);
            } else {
                let item = rest[k - named.len()];
                assert(out[k] == item);
                assert(others.contains(item));
                let at = choose|at: int| 0 <= at < others.len() && others[at] == item;
                decoded.lemma_filter_pred(is_not_named(first), at);
                decoded.lemma_filter_contains_rev(is_not_named(first), item);
            }
        }
        assert forall|i: int, j: int| 0 <= i <= j < out.len() implies place(
            declared,
            (#[trigger] out[i]).spec_name()@,
        ) <= place(declared, (#[trigger] out[j]).spec_name()@) by {
            if i >= named.len() {
                assert(rest[i - named.len()] == out[i]);
                assert(rest[j - named.len()] == out[j]);
            }
        }
    }
}

impl MeshDescriptor {
    pub fn _new_(name: String, source: VerticesSource, geometries: Vec<GeometryDescriptor>) -> (descriptor:
        Self)
        ensures
            descriptor == (MeshDescriptor { name, source, geometries }),
    {
        Self { name, source, geometries }
    }

    pub fn count_geometries(&self) -> (count: usize)
        ensures
            count == self.geometries@.len(),
    {
        self.geometries.len()
    }

    /// The names of the declared geometries, in the declared order.
    pub open spec fn declared_names(&self) -> Seq<Seq<char>> {
        names_of(self.geometries@)
    }

    pub fn geometries_names(&self) -> (names: Vec<GeometryName>)
        ensures
            names@.len() == self.geometries@.len(),
            forall|i: int| 0 <= i < names@.len() ==> names@[i] == self.geometries@[i].spec_name(),
    {
        let mut names: Vec<GeometryName> = Vec::new();
        let mut i: usize = 0;
        while i < self.geometries.len()
            invariant
                i <= self.geometries@.len(),
                names@.len() == i,
                forall|j: int| 0 <= j < i ==> names@[j] == self.geometries@[j].spec_name(),
            decreases self.geometries@.len() - i,
        {
            names.push(self.geometries[i].name());
            i += 1;
        }
        names
    }

    pub fn geometries(&self) -> (geometries: &Vec<GeometryDescriptor>)
        ensures
            *geometries == self.geometries,
    {
        &self.geometries
    }

    /// Holds what a geometry source gave against the declaration, and puts
    /// it in the declared order.
    ///
    /// Fails closed: where the source holds a geometry that the descriptor
    /// does not declare, nothing is kept, and the error names the first such
    /// geometry. Else every item is kept once, in the order of [`arranged`].
    pub fn arrange<N: NamedHandle<GeometryName>>(&self, decoded: Vec<N>) -> (outcome: Result<
        Vec<N>,
        MeshError,
    >)
        ensures
            match outcome {
                Ok(geometries) => {
                    &&& decoded@.filter(is_undeclared(self.declared_names())).len() == 0
                    &&& geometries@ == arranged(self.declared_names(), decoded@)
                },
                Err(e) => {
                    let strangers = decoded@.filter(is_undeclared(self.declared_names()));
                    &&& strangers.len() > 0
                    &&& e@ == (MeshErrorView::UnexpectedGeometry {
                        mesh: self.name@,
                        geometry: strangers[0].spec_name()@,
                    })
                },
            },
    {
        let ghost declared = self.declared_names();
        let mut rest = decoded;
        let mut out: Vec<N> = Vec::new();
        let mut i: usize = 0;
        proof {
            assert(declared.skip(0) == declared);
            assert(out@ + arranged(declared, decoded@) == arranged(declared, decoded@));
        }
        while i < self.geometries.len()
            invariant
                declared == self.declared_names(),
                i <= self.geometries@.len(),
                arranged(declared, decoded@) == out@ + arranged(declared.skip(i as int), rest@),
                unclaimed(declared, decoded@) == unclaimed(declared.skip(i as int), rest@),
            decreases self.geometries@.len() - i,
        {
            let wanted = self.geometries[i].name();
            let ghost name = declared[i as int];
            assert(wanted@ == name);
            let ghost before = rest@;
            let ghost out_before = out@;
            let ghost mut seen: Seq<N> = Seq::empty();
            let mut j: usize = 0;
            proof {
                reveal(Seq::filter);
                assert(before.skip(0) == before);
                assert(out_before + seen.filter(is_named(name)) == out_before);
            }
            while j < rest.len()
                invariant
                    wanted@ == name,
                    j <= rest@.len(),
                    before == seen + rest@.skip(j as int),
                    out@ == out_before + seen.filter(is_named(name)),
                    rest@.take(j as int) == seen.filter(is_not_named(name)),
                decreases rest@.len() - j,
            {
                let ghost item = rest@[j as int];
                let ghost rest_was = rest@;
                let found = rest[j].name();
                proof {
                    reveal(Seq::filter);
                    assert(seen.push(item).drop_last() == seen);
                    assert(seen.push(item) + rest_was.skip(j + 1) == seen + rest_was.skip(
                        j as int,
                    ));
                }
                if found.same(&wanted) {
                    let taken = rest.remove(j);
                    out.push(taken);
                    proof {
                        assert(rest@.skip(j as int) == rest_was.skip(j + 1));
                        assert(rest@.take(j as int) == rest_was.take(j as int));
                        assert(out@ == out_before + seen.push(item).filter(is_named(name)));
                        seen = seen.push(item);
                    }
                } else {
                    proof {
                        assert(rest@.take(j + 1) == rest@.take(j as int).push(item));
                        seen = seen.push(item);
                    }
                    j += 1;
                }
            }
            proof {
                assert(rest@.skip(j as int) == Seq::<N>::empty());
                assert(before == seen + Seq::<N>::empty());
                assert(rest@.take(j as int) == rest@);
                let tail = declared.skip(i as int);
                assert(tail[0] == name);
                assert(tail.drop_first() == declared.skip(i + 1));
                assert(out@ + arranged(declared.skip(i + 1), rest@) == out_before + (before.filter(
                    is_named(name),
                ) + arranged(declared.skip(i + 1), rest@)));
            }
            i += 1;
        }
        proof {
            assert(declared.skip(i as int).len() == 0);
            lemma_unclaimed_is_undeclared(declared, decoded@);
            assert(out@ + Seq::<N>::empty() == out@);
        }
        if rest.len() == 0 {
            Ok(out)
        } else {
            Err(
                MeshError::UnexpectedGeometry {
                    mesh: MeshName(self.name.clone()),
                    geometry: rest[0].name(),
                },
            )
        }
    }
}

impl NamedHandle<MeshName> for MeshDescriptor {
    open spec fn spec_name(&self) -> MeshName {
        MeshName(self.name)
    }

    fn name(&self) -> (name: MeshName) {
        MeshName(self.name.clone())
    }
}

/// A mesh on the device: the buffers of its geometries, in drawing order.
#[derive(Debug)]
pub struct MeshBuf<G> {
    pub name: String,
    pub geometries: Vec<GeometryBuf<G>>,
}

impl<G> MeshBuf<G> {
    /// The names of the geometries of the mesh, in drawing order.
    pub open spec fn geometry_names(&self) -> Seq<Seq<char>> {
        names_of(self.geometries@)
    }
}

} // verus!
