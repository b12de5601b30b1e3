use vstd::prelude::*;

verus! {

/// A path taken apart into its components, as `std::path::Path::components`
/// yields them (the root directory `/` is a component of its own), each
/// component as the bytes of its name.
pub type PathView = Seq<Seq<u8>>;

/// The part of `path` that follows `base`, when the components of `base` are
/// the leading components of `path`; `None` otherwise.
pub open spec fn relative_to(path: PathView, base: PathView) -> Option<PathView> {
    if base.len() <= path.len() && path.take(base.len() as int) == base {
        Some(path.skip(base.len() as int))
    } else {
        None
    }
}

/// A copy of the bytes `b`.
pub fn copy_bytes(b: &Vec<u8>) -> (r: Vec<u8>)
    ensures
        r@ == b@,
        r.deep_view() == b.deep_view(),
{
    let mut r: Vec<u8> = Vec::new();
    let mut i: usize = 0;
    while i < b.len()
        invariant
            i <= b.len(),
            r@ == b@.take(i as int),
        decreases b.len() - i,
    {
        r.push(b[i]);
        i += 1;
        assert(r@ =~= b@.take(i as int));
    }
    assert(b@.take(b.len() as int) =~= b@);
    assert(r.deep_view() =~= b.deep_view());
    r
}

/// Whether `a` and `b` hold the same bytes.
pub fn same_bytes(a: &Vec<u8>, b: &Vec<u8>) -> (r: bool)
    ensures
        r == (a.deep_view() == b.deep_view()),
{
    assert(a.deep_view() =~= a@);
    assert(b.deep_view() =~= b@);
    if a.len() != b.len() {
        return false;
    }
    let mut i: usize = 0;
    while i < a.len()
        invariant
            i <= a.len() == b.len(),
            forall|j: int| 0 <= j < i ==> a@[j] == b@[j],
        decreases a.len() - i,
    {
        if a[i] != b[i] {
            assert(a.deep_view()[i as int] != b.deep_view()[i as int]);
            return false;
        }
        i += 1;
    }
    assert(a@ =~= b@);
    true
}

/// What a component vector stands for, in the option that may hold one.
pub open spec fn opt_path_view(p: Option<Vec<Vec<u8>>>) -> Option<PathView> {
    match p {
        Some(v) => Some(v.deep_view()),
        None => None,
    }
}

/// A copy of the components `first`, followed by those of `second`.
pub fn append_components(first: &Vec<Vec<u8>>, second: &Vec<Vec<u8>>) -> (r: Vec<Vec<u8>>)
    ensures
        r.deep_view() == first.deep_view() + second.deep_view(),
{
    let mut r: Vec<Vec<u8>> = Vec::new();
    let mut i: usize = 0;
    while i < first.len()
        invariant
            i <= first.len(),
            r.deep_view() == first.deep_view().take(i as int),
        decreases first.len() - i,
    {
        let ghost before = r.deep_view();
        let c = copy_bytes(&first[i]);
        assert(c.deep_view() == first.deep_view()[i as int]);
        r.push(c);
        assert(r.deep_view() =~= before.push(c.deep_view()));
        i += 1;
        assert(r.deep_view() =~= first.deep_view().take(i as int));
    }
    let mut j: usize = 0;
    while j < second.len()
        invariant
            j <= second.len(),
            r.deep_view() == first.deep_view() + second.deep_view().take(j as int),
        decreases second.len() - j,
    {
        let ghost before = r.deep_view();
        let c = copy_bytes(&second[j]);
        assert(c.deep_view() == second.deep_view()[j as int]);
        r.push(c);
        assert(r.deep_view() =~= before.push(c.deep_view()));
        j += 1;
        assert(r.deep_view() =~= first.deep_view() + second.deep_view().take(j as int));
    }
    assert(first.deep_view().take(first.len() as int) =~= first.deep_view());
    assert(second.deep_view().take(second.len() as int) =~= second.deep_view());
    r
}

/// A copy of the components of `path`.
pub fn copy_components(path: &Vec<Vec<u8>>) -> (r: Vec<Vec<u8>>)
    ensures
        r.deep_view() == path.deep_view(),
{
    let empty: Vec<Vec<u8>> = Vec::new();
    let r = append_components(path, &empty);
    assert(path.deep_view() + empty.deep_view() =~= path.deep_view());
    r
}

/// The components of `path` that follow `base`, or `None` where `base` is not
/// a leading part of `path`.
pub fn strip_components(path: &Vec<Vec<u8>>, base: &Vec<Vec<u8>>) -> (r: Option<Vec<Vec<u8>>>)
    ensures
        opt_path_view(r) == relative_to(path.deep_view(), base.deep_view()),
{
    if base.len() > path.len() {
        return None;
    }
    let mut i: usize = 0;
    while i < base.len()
        invariant
            i <= base.len() <= path.len(),
            forall|j: int| 0 <= j < i ==> path.deep_view()[j] == base.deep_view()[j],
        decreases base.len() - i,
    {
        if !same_bytes(&path[i], &base[i]) {
            assert(path.deep_view().take(base.len() as int)[i as int] != base.deep_view()[i as int]);
            return None;
        }
        i += 1;
    }
    assert(path.deep_view().take(base.len() as int) =~= base.deep_view());
    let mut rest: Vec<Vec<u8>> = Vec::new();
    let mut k: usize = base.len();
    while k < path.len()
        invariant
            base.len() <= k <= path.len(),
            rest.deep_view() == path.deep_view().subrange(base.len() as int, k as int),
        decreases path.len() - k,
    {
        let ghost before = rest.deep_view();
        let c = copy_bytes(&path[k]);
        assert(c.deep_view() == path.deep_view()[k as int]);
        rest.push(c);
        assert(rest.deep_view() =~= before.push(c.deep_view()));
        k += 1;
        assert(rest.deep_view() =~= path.deep_view().subrange(base.len() as int, k as int));
    }
    assert(rest.deep_view() =~= path.deep_view().skip(base.len() as int));
    Some(rest)
}

} // verus!
