use vstd::prelude::*;

verus! {

broadcast use vstd::seq_lib::group_seq_properties;

/// The strings held by a vector of strings.
pub open spec fn strs(v: Seq<String>) -> Seq<Seq<char>> {
    v.map_values(|s: String| s@)
}

/// What an admission policy holds: four lists of strings.
pub struct PolicyView {
    pub allow_prefixes: Seq<Seq<char>>,
    pub allow_images: Seq<Seq<char>>,
    pub deny_prefixes: Seq<Seq<char>>,
    pub deny_images: Seq<Seq<char>>,
}

/// Which image references may be pulled from remote registries, and which
/// local images are withheld. Remote images are denied unless an allow entry
/// matches; local images are allowed unless a deny entry matches. Each entry
/// is tested on its own, so neither order nor duplicates matter.
#[derive(Clone, Debug)]
pub struct AdmissionPolicy {
    allow_prefixes: Vec<String>,
    allow_images: Vec<String>,
    deny_prefixes: Vec<String>,
    deny_images: Vec<String>,
}

pub open spec fn is_prefix(p: Seq<char>, s: Seq<char>) -> bool {
    p.len() <= s.len() && s.subrange(0, p.len() as int) == p
}

/// Some entry of `ps` is a prefix of `image`.
pub open spec fn prefix_listed(ps: Seq<Seq<char>>, image: Seq<char>) -> bool {
    exists|i: int| 0 <= i < ps.len() && is_prefix(#[trigger] ps[i], image)
}

/// Some entry of `names` equals `image`.
pub open spec fn name_listed(names: Seq<Seq<char>>, image: Seq<char>) -> bool {
    names.contains(image)
}

/// The admission decision for `image`; `local` tells whether the image is
/// already present in the repository.
pub open spec fn admits(p: PolicyView, image: Seq<char>, local: bool) -> bool {
    if local {
        !prefix_listed(p.deny_prefixes, image) && !name_listed(p.deny_images, image)
    } else {
        prefix_listed(p.allow_prefixes, image) || name_listed(p.allow_images, image)
    }
}

/// Two lists hold the same entries, each as often, in any order.
pub open spec fn same_entries(a: Seq<Seq<char>>, b: Seq<Seq<char>>) -> bool {
    a.to_multiset() == b.to_multiset()
}

impl View for AdmissionPolicy {
    type V = PolicyView;

    closed spec fn view(&self) -> PolicyView {
        PolicyView {
            allow_prefixes: strs(self.allow_prefixes@),
            allow_images: strs(self.allow_images@),
            deny_prefixes: strs(self.deny_prefixes@),
            deny_images: strs(self.deny_images@),
        }
    }
}

/// Relies on str::starts_with: true when `p` is a prefix of `s`.
#[verifier::external_body]
fn starts_with(s: &str, p: &str) -> (r: bool)
    ensures
        r == is_prefix(p@, s@),
{
    s.starts_with(p)
}

/// Whether some entry of `ps` is a prefix of `image`.
fn any_prefix(ps: &Vec<String>, image: &str) -> (r: bool)
    ensures
        r == prefix_listed(strs(ps@), image@),
{
    let mut i: usize = 0;
    while i < ps.len()
        invariant
            i <= ps.len(),
            forall|j: int| 0 <= j < i ==> !is_prefix(#[trigger] strs(ps@)[j], image@),
        decreases ps.len() - i,
    {
        if starts_with(image, ps[i].as_str()) {
            assert(is_prefix(strs(ps@)[i as int], image@));
            return true;
        }
        i = i + 1;
    }
    false
}

/// Whether some entry of `names` equals `image`.
fn any_name(names: &Vec<String>, image: &str) -> (r: bool)
    ensures
        r == name_listed(strs(names@), image@),
{
    let wanted: String = image.to_owned();
    let mut i: usize = 0;
    while i < names.len()
        invariant
            i <= names.len(),
            wanted@ == image@,
            forall|j: int| 0 <= j < i ==> strs(names@)[j] != image@,
        decreases names.len() - i,
    {
        if names[i] == wanted {
            assert(strs(names@)[i as int] == image@);
            return true;
        }
        i = i + 1;
    }
    assert forall|k: int| 0 <= k < strs(names@).len() implies strs(names@)[k] != image@ by {}
    false
}

impl AdmissionPolicy {
    pub fn new(
        allow_prefixes: Vec<String>,
        allow_images: Vec<String>,
        deny_prefixes: Vec<String>,
        deny_images: Vec<String>,
    ) -> (r: AdmissionPolicy)
        ensures
            r@ == (PolicyView {
                allow_prefixes: strs(allow_prefixes@),
                allow_images: strs(allow_images@),
                deny_prefixes: strs(deny_prefixes@),
                deny_images: strs(deny_images@),
            }),
    {
        AdmissionPolicy { allow_prefixes, allow_images, deny_prefixes, deny_images }
    }

    pub fn allow_prefixes(&self) -> (r: &Vec<String>)
        ensures
            strs(r@) == self@.allow_prefixes,
    {
        &self.allow_prefixes
    }

    pub fn allow_images(&self) -> (r: &Vec<String>)
        ensures
            strs(r@) == self@.allow_images,
    {
        &self.allow_images
    }

    pub fn deny_prefixes(&self) -> (r: &Vec<String>)
        ensures
            strs(r@) == self@.deny_prefixes,
    {
        &self.deny_prefixes
    }

    pub fn deny_images(&self) -> (r: &Vec<String>)
        ensures
            strs(r@) == self@.deny_images,
    {
        &self.deny_images
    }

    /// Whether `image` is admitted: a local image unless a deny entry matches
    /// it, a remote image only if an allow entry matches it.
    pub fn admits(&self, image: &str, local: bool) -> (r: bool)
        ensures
            r == admits(self@, image@, local),
    {
        if local {
            !any_prefix(&self.deny_prefixes, image) && !any_name(&self.deny_images, image)
        } else {
            any_prefix(&self.allow_prefixes, image) || any_name(&self.allow_images, image)
        }
    }
}

proof fn lemma_prefix_listed_same_entries(a: Seq<Seq<char>>, b: Seq<Seq<char>>, image: Seq<char>)
    requires
        same_entries(a, b),
    ensures
        prefix_listed(a, image) ==> prefix_listed(b, image),
{
    if prefix_listed(a, image) {
        let i = choose|i: int| 0 <= i < a.len() && is_prefix(#[trigger] a[i], image);
        assert(a.contains(a[i]));
        assert(a.to_multiset().count(a[i]) > 0);
        assert(b.contains(a[i]));
        let j = choose|j: int| 0 <= j < b.len() && b[j] == a[i];
        assert(is_prefix(b[j], image));
    }
}

proof fn lemma_name_listed_same_entries(a: Seq<Seq<char>>, b: Seq<Seq<char>>, image: Seq<char>)
    requires
        same_entries(a, b),
    ensures
        name_listed(a, image) == name_listed(b, image),
{
    assert(a.contains(image) <==> a.to_multiset().count(image) > 0);
    assert(b.contains(image) <==> b.to_multiset().count(image) > 0);
}

/// Reordering the entries within any of the four lists of a policy does not
/// change its decision on any image reference.
pub proof fn lemma_admission_ignores_order(p: PolicyView, q: PolicyView, image: Seq<char>, local: bool)
    requires
        same_entries(p.allow_prefixes, q.allow_prefixes),
        same_entries(p.allow_images, q.allow_images),
        same_entries(p.deny_prefixes, q.deny_prefixes),
        same_entries(p.deny_images, q.deny_images),
    ensures
        admits(p, image, local) == admits(q, image, local),
{
    lemma_prefix_listed_same_entries(p.allow_prefixes, q.allow_prefixes, image);
    lemma_prefix_listed_same_entries(q.allow_prefixes, p.allow_prefixes, image);
    lemma_prefix_listed_same_entries(p.deny_prefixes, q.deny_prefixes, image);
    lemma_prefix_listed_same_entries(q.deny_prefixes, p.deny_prefixes, image);
    lemma_name_listed_same_entries(p.allow_images, q.allow_images, image);
    lemma_name_listed_same_entries(p.deny_images, q.deny_images, image);
}

} // verus!
