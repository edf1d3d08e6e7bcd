use crate::names::{get_cluster_short_name, get_image_short_name, short_name};
use crate::table::TextMap;
use vstd::prelude::*;

verus! {

/// Whether the text `a` comes before the text `b` or equals it, in the order
/// of strings: character by character, by code point, a prefix first.
pub open spec fn text_le(a: Seq<char>, b: Seq<char>) -> bool
    decreases a.len(),
{
    if a.len() == 0 {
        true
    } else if b.len() == 0 {
        false
    } else if a.first() != b.first() {
        (a.first() as u32) < (b.first() as u32)
    } else {
        text_le(a.drop_first(), b.drop_first())
    }
}

/// Whether `texts` stand in ascending order.
pub open spec fn ascending(texts: Seq<Seq<char>>) -> bool {
    forall|i: int, j: int| 0 <= i <= j < texts.len() ==> text_le(texts[i], texts[j])
}

/// The short names of `references`, place by place.
pub open spec fn short_names(references: Seq<Seq<char>>) -> Seq<Seq<char>> {
    Seq::new(references.len(), |i: int| short_name(references[i]))
}

/// Sorts `texts` with the `sort` of slices in std: afterwards they stand in
/// ascending order of strings, which std documents as the order of their code
/// points, and they are the texts that were there, each as often as before.
#[verifier::external_body]
fn sort_texts(texts: &mut Vec<String>)
    ensures
        ascending(final(texts).deep_view()),
        final(texts).deep_view().to_multiset() == old(texts).deep_view().to_multiset(),
{
    texts.sort();
}

/// The short names of `images` in ascending order, one for each image.
pub fn sorted_short_names(images: &Vec<String>) -> (r: Vec<String>)
    ensures
        ascending(r.deep_view()),
        r.deep_view().to_multiset() == short_names(images.deep_view()).to_multiset(),
{
    let mut names: Vec<String> = Vec::new();
    let mut i: usize = 0;
    while i < images.len()
        invariant
            i <= images.len(),
            names.deep_view() == short_names(images.deep_view().take(i as int)),
        decreases images.len() - i,
    {
        let ghost before = names.deep_view();
        let name = get_image_short_name(&images[i]);
        names.push(name);
        proof {
            assert(images.deep_view()[i as int] == images@[i as int]@);
            assert(names.deep_view() =~= before.push(name@));
            assert(names.deep_view() =~= short_names(images.deep_view().take(i + 1)));
        }
        i = i + 1;
    }
    assert(images.deep_view().take(i as int) =~= images.deep_view());
    sort_texts(&mut names);
    names
}

/// What is shown of one cluster: its short name, and the short names of its
/// images in ascending order.
#[derive(Clone, Debug, PartialEq, Eq)]
pub struct ClusterDisplay {
    pub name: String,
    pub images: Vec<String>,
}

/// What is shown of one role: the role, and its clusters.
#[derive(Clone, Debug, PartialEq, Eq)]
pub struct RoleDisplay {
    pub role: String,
    pub clusters: Vec<ClusterDisplay>,
}

/// Whether `shown` is what is shown of the cluster `cluster` with the images `images`.
pub open spec fn shows_cluster(
    shown: ClusterDisplay,
    cluster: Seq<char>,
    images: Seq<Seq<char>>,
) -> bool {
    &&& shown.name@ == short_name(cluster)
    &&& ascending(shown.images.deep_view())
    &&& shown.images.deep_view().to_multiset() == short_names(images).to_multiset()
}

/// Whether `shown` is what is shown of the role `role` with the result
/// `result`: the clusters in the order of the result.
pub open spec fn shows_role(
    shown: RoleDisplay,
    role: Seq<char>,
    result: Seq<(Seq<char>, Seq<Seq<char>>)>,
) -> bool {
    &&& shown.role@ == role
    &&& shown.clusters.len() == result.len()
    &&& forall|j: int|
        0 <= j < result.len() ==> shows_cluster(
            #[trigger] shown.clusters[j],
            result[j].0,
            result[j].1,
        )
}

/// What is shown of one role's result.
fn role_display(role: &String, result: &TextMap<Vec<String>>) -> (r: RoleDisplay)
    ensures
        shows_role(r, role@, result.deep_view()),
{
    let mut clusters: Vec<ClusterDisplay> = Vec::new();
    let mut j: usize = 0;
    while j < result.len()
        invariant
            j <= result.deep_view().len(),
            clusters.len() == j,
            forall|k: int|
                0 <= k < j ==> shows_cluster(
                    #[trigger] clusters[k],
                    result.deep_view()[k].0,
                    result.deep_view()[k].1,
                ),
        decreases result.deep_view().len() - j,
    {
        let shown = ClusterDisplay {
            name: get_cluster_short_name(result.key_at(j)),
            images: sorted_short_names(result.value_at(j)),
        };
        let ghost before = clusters@;
        clusters.push(shown);
        assert forall|k: int| 0 <= k < j + 1 implies shows_cluster(
            #[trigger] clusters[k],
            result.deep_view()[k].0,
            result.deep_view()[k].1,
        ) by {
            if k < j {
                assert(clusters[k] == before[k]);
            }
        }
        j = j + 1;
    }
    RoleDisplay { role: role.clone(), clusters }
}

/// What is shown of the results of all roles: for each result, in order, the
/// role it belongs to, and under it each cluster by its short name with the
/// short names of its images in ascending order. The result at place `i`
/// belongs to the role at place `i`.
pub fn print_results(all_clusters_images: &Vec<TextMap<Vec<String>>>, roles: &Vec<String>) -> (r:
    Vec<RoleDisplay>)
    requires
        all_clusters_images.len() <= roles.len(),
    ensures
        r.len() == all_clusters_images.len(),
        forall|i: int|
            0 <= i < r.len() ==> shows_role(
                #[trigger] r[i],
                roles[i]@,
                all_clusters_images[i].deep_view(),
            ),
{
    let mut shown: Vec<RoleDisplay> = Vec::new();
    let mut i: usize = 0;
    while i < all_clusters_images.len()
        invariant
            i <= all_clusters_images.len() <= roles.len(),
            shown.len() == i,
            forall|k: int|
                0 <= k < i ==> shows_role(
                    #[trigger] shown[k],
                    roles[k]@,
                    all_clusters_images[k].deep_view(),
                ),
        decreases all_clusters_images.len() - i,
    {
        let role = role_display(&roles[i], &all_clusters_images[i]);
        let ghost before = shown@;
        shown.push(role);
        assert forall|k: int| 0 <= k < i + 1 implies shows_role(
            #[trigger] shown[k],
            roles[k]@,
            all_clusters_images[k].deep_view(),
        ) by {
            if k < i {
                assert(shown[k] == before[k]);
            }
        }
        i = i + 1;
    }
    shown
}

} // verus!
