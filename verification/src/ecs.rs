use crate::errors::{ApiCall, DiscoveryError};
use crate::table::{put, TextMap};
use vstd::prelude::*;

verus! {

/// One page of a listing: the identifiers on it, and the cursor to ask the
/// next page with, absent on the last page.
#[derive(Clone, Debug, PartialEq, Eq)]
pub struct Page {
    pub items: Option<Vec<String>>,
    pub next_token: Option<String>,
}

/// What the service tells of one service: the task definition it runs.
#[derive(Clone, Debug, PartialEq, Eq)]
pub struct ServiceDescription {
    pub task_definition: Option<String>,
}

/// One container of a task definition, with the image it runs.
#[derive(Clone, Debug, PartialEq, Eq)]
pub struct ContainerDefinition {
    pub image: Option<String>,
}

/// A task definition: the containers that it is made of, in order.
#[derive(Clone, Debug, PartialEq, Eq)]
pub struct TaskDefinition {
    pub container_definitions: Option<Vec<ContainerDefinition>>,
}

/// A request to describe some services of one cluster.
#[derive(Clone, Debug, PartialEq, Eq)]
pub struct DescribeServicesRequest {
    pub cluster: String,
    pub services: Vec<String>,
}

/// The images that run in each cluster of one role.
pub type DiscoveryResult = TextMap<Vec<String>>;

/// The number of services that one describe-services request may name.
pub const BATCH_CAP: usize = 10;

/// Whether `i` is the place of the first failure among `outcomes`.
pub open spec fn is_first_failure<T, E>(outcomes: Seq<Result<T, E>>, i: int) -> bool {
    &&& 0 <= i < outcomes.len()
    &&& outcomes[i] is Err
    &&& forall|j: int| 0 <= j < i ==> (#[trigger] outcomes[j]) is Ok
}

/// Whether every one of `outcomes` is a success.
pub open spec fn all_succeeded<T, E>(outcomes: Seq<Result<T, E>>) -> bool {
    forall|i: int| 0 <= i < outcomes.len() ==> (#[trigger] outcomes[i]) is Ok
}

/// The values of `items` that are there, in order.
pub open spec fn present<T>(items: Seq<Option<T>>) -> Seq<T>
    decreases items.len(),
{
    if items.len() == 0 {
        Seq::empty()
    } else {
        match items.last() {
            Some(item) => present(items.drop_last()).push(item),
            None => present(items.drop_last()),
        }
    }
}

/// The images that the answers to a batch of task-definition lookups hold,
/// where all of them succeeded: those that name an image, in order.
pub open spec fn images_of_answers(
    answers: Seq<Result<Option<String>, DiscoveryError>>,
) -> Seq<Seq<char>> {
    present(Seq::new(answers.len(), |i: int| answers[i]->Ok_0.deep_view()))
}

/// Joins the image lookups of one batch of services. The first failure, in
/// order, fails the batch; else the images that were found are handed out in
/// order, one for each lookup that named one, none dropped as a duplicate.
pub fn get_images_of_services(answers: Vec<Result<Option<String>, DiscoveryError>>) -> (r: Result<
    Vec<String>,
    DiscoveryError,
>)
    ensures
        r is Ok <==> all_succeeded(answers@),
        r matches Ok(images) ==> images.deep_view() == images_of_answers(answers@),
        r matches Err(error) ==> exists|i: int|
            is_first_failure(answers@, i) && answers@[i] == Err::<Option<String>, DiscoveryError>(
                error,
            ),
{
    let mut images: Vec<String> = Vec::new();
    let ghost all = answers@;
    for answer in it: answers
        invariant
            it.seq() == all,
            all_succeeded(all.take(it.index() as int)),
            images.deep_view() == images_of_answers(all.take(it.index() as int)),
    {
        let ghost at = it.index() as int;
        let ghost before = all.take(at);
        let ghost after = all.take(at + 1);
        let ghost found = images.deep_view();
        proof {
            assert(answer == all[at]);
            assert(after.drop_last() =~= before);
            assert forall|j: int| 0 <= j < at implies (#[trigger] all[j]) is Ok by {
                assert(before[j] is Ok);
            }
        }
        match answer {
            Ok(image) => {
                proof {
                    assert(Seq::new(after.len(), |i: int| after[i]->Ok_0.deep_view()).drop_last()
                        =~= Seq::new(before.len(), |i: int| before[i]->Ok_0.deep_view()));
                    assert forall|j: int| 0 <= j < after.len() implies (#[trigger] after[j])
                        is Ok by {
                        if j < at {
                            assert(before[j] is Ok);
                        }
                    }
                }
                match image {
                    Some(image) => {
                        images.push(image);
                        assert(images.deep_view() =~= found.push(image@));
                    },
                    None => {},
                }
            },
            Err(error) => {
                assert(is_first_failure(all, at));
                return Err(error);
            },
        }
    }
    assert(all.take(all.len() as int) =~= all);
    Ok(images)
}

/// The parts of `parts` one after the other.
pub open spec fn concat_all<T>(parts: Seq<Seq<T>>) -> Seq<T>
    decreases parts.len(),
{
    if parts.len() == 0 {
        Seq::empty()
    } else {
        concat_all(parts.drop_last()) + parts.last()
    }
}

/// The identifiers on `page`.
pub open spec fn page_items(page: Page) -> Seq<Seq<char>> {
    match page.items {
        Some(items) => items.deep_view(),
        None => Seq::empty(),
    }
}

/// Takes in the answer to one call of a listing. The identifiers of the page
/// are added to `collected`; the cursor of the page is handed out, `None`
/// telling that the listing has ended. A failed call leaves `collected` as it
/// was and is reported under `call`.
fn take_page(call: ApiCall, collected: &mut Vec<String>, answer: Result<Page, String>) -> (r:
    Result<Option<String>, DiscoveryError>)
    ensures
        match answer {
            Ok(page) => r == Ok::<Option<String>, DiscoveryError>(page.next_token)
                && final(collected).deep_view() == old(collected).deep_view() + page_items(page),
            Err(reason) => r == Err::<Option<String>, DiscoveryError>(
                DiscoveryError { call, reason },
            ) && *final(collected) == *old(collected),
        },
{
    match answer {
        Ok(page) => {
            let ghost before = collected.deep_view();
            match page.items {
                Some(items) => {
                    let mut items = items;
                    let ghost added = items.deep_view();
                    collected.append(&mut items);
                    assert(collected.deep_view() =~= before + added);
                },
                None => {
                    assert(collected.deep_view() =~= before + Seq::<Seq<char>>::empty());
                },
            }
            Ok(page.next_token)
        },
        Err(reason) => Err(DiscoveryError { call, reason }),
    }
}

/// One step of listing the clusters: takes in the answer to a list-clusters
/// call. The clusters of the page are added to `clusters` in the order the
/// service gave them. `Ok(Some(cursor))` asks for the next page with that
/// cursor, `Ok(None)` ends the listing.
pub fn get_clusters(clusters: &mut Vec<String>, answer: Result<Page, String>) -> (r: Result<
    Option<String>,
    DiscoveryError,
>)
    ensures
        match answer {
            Ok(page) => r == Ok::<Option<String>, DiscoveryError>(page.next_token)
                && final(clusters).deep_view() == old(clusters).deep_view() + page_items(page),
            Err(reason) => r == Err::<Option<String>, DiscoveryError>(
                DiscoveryError { call: ApiCall::ListClusters, reason },
            ) && *final(clusters) == *old(clusters),
        },
{
    take_page(ApiCall::ListClusters, clusters, answer)
}

/// One step of listing the services of a cluster: takes in the answer to a
/// list-services call, as `get_clusters` does for clusters.
pub fn get_services(services: &mut Vec<String>, answer: Result<Page, String>) -> (r: Result<
    Option<String>,
    DiscoveryError,
>)
    ensures
        match answer {
            Ok(page) => r == Ok::<Option<String>, DiscoveryError>(page.next_token)
                && final(services).deep_view() == old(services).deep_view() + page_items(page),
            Err(reason) => r == Err::<Option<String>, DiscoveryError>(
                DiscoveryError { call: ApiCall::ListServices, reason },
            ) && *final(services) == *old(services),
        },
{
    take_page(ApiCall::ListServices, services, answer)
}

/// The number of batches that `count` services are described in.
pub open spec fn batch_count(count: nat) -> nat {
    ((count + BATCH_CAP - 1) / (BATCH_CAP as int)) as nat
}

/// The batch at place `k` of `items`: the next `BATCH_CAP` items from
/// `k * BATCH_CAP` on, or those that are left.
pub open spec fn batch<T>(items: Seq<T>, k: int) -> Seq<T> {
    items.subrange(
        k * BATCH_CAP,
        if (k + 1) * BATCH_CAP <= items.len() {
            (k + 1) * BATCH_CAP
        } else {
            items.len() as int
        },
    )
}

/// The batches of `items`, in order.
pub open spec fn batches<T>(items: Seq<T>) -> Seq<Seq<T>> {
    Seq::new(batch_count(items.len()), |k: int| batch(items, k))
}

/// The requests that describe the services `services` of the cluster
/// `cluster`: consecutive batches of at most `BATCH_CAP` services each.
pub fn service_batches(cluster: &str, services: &Vec<String>) -> (r: Vec<DescribeServicesRequest>)
    ensures
        r.len() == batch_count(services.len() as nat),
        forall|k: int|
            0 <= k < r.len() ==> (#[trigger] r[k]).cluster@ == cluster@ && r[k].services.deep_view()
                == batch(services.deep_view(), k),
        forall|k: int| 0 <= k < r.len() ==> 1 <= (#[trigger] r[k]).services.len() <= BATCH_CAP,
        concat_all(Seq::new(r.len() as nat, |k: int| r[k].services.deep_view()))
            == services.deep_view(),
{
    let mut requests: Vec<DescribeServicesRequest> = Vec::new();
    let mut start: usize = 0;
    while start < services.len()
        invariant
            start <= services.len(),
            start == requests.len() * BATCH_CAP || (start == services.len() && requests.len()
                == batch_count(services.len() as nat)),
            requests.len() <= batch_count(services.len() as nat),
            start < services.len() ==> requests.len() < batch_count(services.len() as nat),
            forall|k: int|
                0 <= k < requests.len() ==> (#[trigger] requests[k]).cluster@ == cluster@
                    && requests[k].services.deep_view() == batch(services.deep_view(), k),
        decreases services.len() - start,
    {
        let end: usize = if services.len() - start > BATCH_CAP {
            start + BATCH_CAP
        } else {
            services.len()
        };
        let mut names: Vec<String> = Vec::new();
        let mut i: usize = start;
        while i < end
            invariant
                start <= i <= end <= services.len(),
                names.deep_view() == services.deep_view().subrange(start as int, i as int),
            decreases end - i,
        {
            let ghost before = names.deep_view();
            names.push(services[i].clone());
            assert(names.deep_view() =~= before.push(services@[i as int]@));
            assert(services.deep_view()[i as int] == services@[i as int]@);
            assert(names.deep_view() =~= services.deep_view().subrange(start as int, i + 1));
            i = i + 1;
        }
        let ghost sent = requests@;
        requests.push(DescribeServicesRequest { cluster: cluster.to_owned(), services: names });
        assert forall|k: int| 0 <= k < requests.len() implies (#[trigger] requests[k]).cluster@
            == cluster@ && requests[k].services.deep_view() == batch(services.deep_view(), k) by {
            if k < sent.len() {
                assert(requests[k] == sent[k]);
            }
        }
        start = end;
    }
    proof {
        let parts = batches(services.deep_view());
        lemma_batches_partition(services.deep_view());
        assert(Seq::new(requests.len() as nat, |k: int| requests[k].services.deep_view())
            =~= parts);
        assert forall|k: int| 0 <= k < requests.len() implies 1 <= (
        #[trigger] requests[k]).services.len() <= BATCH_CAP by {
            assert(requests[k].services.deep_view() == parts[k]);
        }
    }
    requests
}

/// The batches of `items` are as many as `BATCH_CAP` asks for, none is empty
/// or longer than `BATCH_CAP`, and one after the other they give `items`
/// again: each item is in exactly one batch, in its place.
pub proof fn lemma_batches_partition<T>(items: Seq<T>)
    ensures
        batches(items).len() * BATCH_CAP >= items.len(),
        items.len() > 0 ==> (batches(items).len() - 1) * BATCH_CAP < items.len(),
        items.len() == 0 ==> batches(items).len() == 0,
        forall|k: int|
            0 <= k < batches(items).len() ==> 1 <= (#[trigger] batches(items)[k]).len()
                <= BATCH_CAP,
        concat_all(batches(items)) == items,
{
    let parts = batches(items);
    assert forall|k: int| 0 <= k < parts.len() implies 1 <= (#[trigger] parts[k]).len()
        <= BATCH_CAP by {
        assert(parts[k] == batch(items, k));
    }
    lemma_batches_prefix(items, parts.len() as int);
    assert(parts.take(parts.len() as int) =~= parts);
    assert(items.take(items.len() as int) =~= items);
}

/// The first `k` batches of `items`, one after the other, are the items
/// before the place `k * BATCH_CAP`.
proof fn lemma_batches_prefix<T>(items: Seq<T>, k: int)
    requires
        0 <= k <= batches(items).len(),
    ensures
        concat_all(batches(items).take(k)) == items.take(
            if k * BATCH_CAP <= items.len() {
                k * BATCH_CAP
            } else {
                items.len() as int
            },
        ),
    decreases k,
{
    let parts = batches(items);
    if k == 0 {
        assert(parts.take(0) =~= Seq::<Seq<T>>::empty());
        assert(items.take(0) =~= Seq::<T>::empty());
    } else {
        lemma_batches_prefix(items, k - 1);
        assert(parts.take(k).drop_last() =~= parts.take(k - 1));
        assert(parts.take(k).last() == batch(items, k - 1));
        let from = (k - 1) * BATCH_CAP;
        let to = if k * BATCH_CAP <= items.len() {
            k * BATCH_CAP
        } else {
            items.len() as int
        };
        assert(items.take(from) + items.subrange(from, to) =~= items.take(to));
    }
}

/// The task definitions that `services` run, in order: a service that names
/// none is passed over.
pub open spec fn task_definitions(services: Seq<ServiceDescription>) -> Seq<Seq<char>> {
    present(Seq::new(services.len(), |i: int| services[i].task_definition.deep_view()))
}

/// Reads the task definitions off the answer to a describe-services request.
/// An answer without services names none. A failed call is reported as such.
pub fn task_definitions_of(answer: Result<Option<Vec<ServiceDescription>>, String>) -> (r: Result<
    Vec<String>,
    DiscoveryError,
>)
    ensures
        match answer {
            Ok(Some(services)) => r matches Ok(found) && found.deep_view() == task_definitions(
                services@,
            ),
            Ok(None) => r matches Ok(found) && found.deep_view() == Seq::<Seq<char>>::empty(),
            Err(reason) => r == Err::<Vec<String>, DiscoveryError>(
                DiscoveryError { call: ApiCall::DescribeServices, reason },
            ),
        },
{
    match answer {
        Ok(Some(services)) => {
            let mut found: Vec<String> = Vec::new();
            let ghost all = services@;
            for service in it: services
                invariant
                    it.seq() == all,
                    found.deep_view() == task_definitions(all.take(it.index() as int)),
            {
                let ghost at = it.index() as int;
                let ghost before = all.take(at);
                let ghost after = all.take(at + 1);
                let ghost so_far = found.deep_view();
                proof {
                    assert(service == all[at]);
                    assert(after.drop_last() =~= before);
                    assert(Seq::new(
                        after.len(),
                        |i: int| after[i].task_definition.deep_view(),
                    ).drop_last() =~= Seq::new(
                        before.len(),
                        |i: int| before[i].task_definition.deep_view(),
                    ));
                }
                match service.task_definition {
                    Some(task_definition) => {
                        found.push(task_definition);
                        assert(found.deep_view() =~= so_far.push(task_definition@));
                    },
                    None => {},
                }
            }
            assert(all.take(all.len() as int) =~= all);
            Ok(found)
        },
        Ok(None) => {
            let found: Vec<String> = Vec::new();
            assert(found.deep_view() =~= Seq::<Seq<char>>::empty());
            Ok(found)
        },
        Err(reason) => Err(DiscoveryError { call: ApiCall::DescribeServices, reason }),
    }
}

/// The image that a task definition runs: the image of its last container.
/// None where the task definition is missing, lists no container, or its
/// last container names no image.
pub open spec fn image_of(task_definition: Option<TaskDefinition>) -> Option<Seq<char>> {
    match task_definition {
        Some(TaskDefinition { container_definitions: Some(containers) }) => if containers.len()
            > 0 {
            containers@.last().image.deep_view()
        } else {
            None
        },
        _ => None,
    }
}

/// Reads the image off the answer to a describe-task-definition request. A
/// task definition without an image is no error: it gives no image. A failed
/// call is reported as such.
pub fn get_image_of_task_definition(answer: Result<Option<TaskDefinition>, String>) -> (r: Result<
    Option<String>,
    DiscoveryError,
>)
    ensures
        match answer {
            Ok(task_definition) => r matches Ok(image) && image.deep_view() == image_of(
                task_definition,
            ),
            Err(reason) => r == Err::<Option<String>, DiscoveryError>(
                DiscoveryError { call: ApiCall::DescribeTaskDefinition, reason },
            ),
        },
        answer matches Ok(Some(TaskDefinition { container_definitions: Some(containers) }))
            && containers.len() == 0 ==> r == Ok::<Option<String>, DiscoveryError>(None),
{
    match answer {
        Ok(Some(task_definition)) => match task_definition.container_definitions {
            Some(containers) => {
                let mut containers = containers;
                match containers.pop() {
                    Some(last) => Ok(last.image),
                    None => Ok(None),
                }
            },
            None => Ok(None),
        },
        Ok(None) => Ok(None),
        Err(reason) => Err(DiscoveryError { call: ApiCall::DescribeTaskDefinition, reason }),
    }
}

/// The images of a cluster, where every batch succeeded: those of its
/// batches one after the other.
pub open spec fn images_of_batches(batches: Seq<Result<Vec<String>, DiscoveryError>>) -> Seq<
    Seq<char>,
> {
    concat_all(Seq::new(batches.len(), |i: int| batches[i]->Ok_0.deep_view()))
}

/// Joins the batches of one cluster. The first failure, in order, fails the
/// cluster: no part of its images is handed out. Else the cluster is handed
/// out with the images of all its batches in order, duplicates kept.
pub fn get_images_of_a_cluster(
    cluster_name: String,
    batches: Vec<Result<Vec<String>, DiscoveryError>>,
) -> (r: Result<(String, Vec<String>), DiscoveryError>)
    ensures
        r is Ok <==> all_succeeded(batches@),
        r matches Ok((name, images)) ==> name == cluster_name && images.deep_view()
            == images_of_batches(batches@),
        r matches Err(error) ==> exists|i: int|
            is_first_failure(batches@, i) && batches@[i] == Err::<Vec<String>, DiscoveryError>(
                error,
            ),
{
    let mut all_images: Vec<String> = Vec::new();
    let ghost all = batches@;
    assert(all_images.deep_view() =~= Seq::<Seq<char>>::empty());
    for outcome in it: batches
        invariant
            it.seq() == all,
            all_succeeded(all.take(it.index() as int)),
            all_images.deep_view() == images_of_batches(all.take(it.index() as int)),
    {
        let ghost at = it.index() as int;
        let ghost before = all.take(at);
        let ghost after = all.take(at + 1);
        let ghost so_far = all_images.deep_view();
        proof {
            assert(outcome == all[at]);
            assert(after.drop_last() =~= before);
            assert forall|j: int| 0 <= j < at implies (#[trigger] all[j]) is Ok by {
                assert(before[j] is Ok);
            }
        }
        match outcome {
            Ok(images) => {
                let mut images = images;
                proof {
                    assert(Seq::new(after.len(), |i: int| after[i]->Ok_0.deep_view()).drop_last()
                        =~= Seq::new(before.len(), |i: int| before[i]->Ok_0.deep_view()));
                    assert forall|j: int| 0 <= j < after.len() implies (#[trigger] after[j])
                        is Ok by {
                        if j < at {
                            assert(before[j] is Ok);
                        }
                    }
                }
                let ghost added = images.deep_view();
                all_images.append(&mut images);
                assert(all_images.deep_view() =~= so_far + added);
            },
            Err(error) => {
                assert(is_first_failure(all, at));
                return Err(error);
            },
        }
    }
    assert(all.take(all.len() as int) =~= all);
    Ok((cluster_name, all_images))
}

/// The map that `entries` give when they are filed in order: of two entries
/// under one key the later one stays.
pub open spec fn filed<T>(entries: Seq<(Seq<char>, T)>) -> Seq<(Seq<char>, T)>
    decreases entries.len(),
{
    if entries.len() == 0 {
        Seq::empty()
    } else {
        put(filed(entries.drop_last()), entries.last().0, entries.last().1)
    }
}

/// The images of the clusters of a role, where every cluster succeeded.
pub open spec fn images_of_clusters(
    clusters: Seq<Result<(String, Vec<String>), DiscoveryError>>,
) -> Seq<(Seq<char>, Seq<Seq<char>>)> {
    filed(Seq::new(clusters.len(), |i: int| clusters[i]->Ok_0.deep_view()))
}

/// Joins the clusters of one role into the role's result. The first failure,
/// in order, fails the role: no partial result is handed out. Else each
/// cluster is filed with its images.
pub fn get_images_of_clusters(clusters: Vec<Result<(String, Vec<String>), DiscoveryError>>) -> (r:
    Result<TextMap<Vec<String>>, DiscoveryError>)
    ensures
        r is Ok <==> all_succeeded(clusters@),
        r matches Ok(result) ==> result.deep_view() == images_of_clusters(clusters@),
        r matches Err(error) ==> exists|i: int|
            is_first_failure(clusters@, i) && clusters@[i] == Err::<
                (String, Vec<String>),
                DiscoveryError,
            >(error),
{
    let mut result: TextMap<Vec<String>> = TextMap::new();
    let ghost all = clusters@;
    for outcome in it: clusters
        invariant
            it.seq() == all,
            all_succeeded(all.take(it.index() as int)),
            result.deep_view() == images_of_clusters(all.take(it.index() as int)),
    {
        let ghost at = it.index() as int;
        let ghost before = all.take(at);
        let ghost after = all.take(at + 1);
        proof {
            assert(outcome == all[at]);
            assert(after.drop_last() =~= before);
            assert forall|j: int| 0 <= j < at implies (#[trigger] all[j]) is Ok by {
                assert(before[j] is Ok);
            }
        }
        match outcome {
            Ok((cluster_name, images)) => {
                proof {
                    assert(Seq::new(after.len(), |i: int| after[i]->Ok_0.deep_view()).drop_last()
                        =~= Seq::new(before.len(), |i: int| before[i]->Ok_0.deep_view()));
                    assert forall|j: int| 0 <= j < after.len() implies (#[trigger] after[j])
                        is Ok by {
                        if j < at {
                            assert(before[j] is Ok);
                        }
                    }
                }
                result.insert(cluster_name, images);
            },
            Err(error) => {
                assert(is_first_failure(all, at));
                return Err(error);
            },
        }
    }
    assert(all.take(all.len() as int) =~= all);
    Ok(result)
}

} // verus!
