use aws_manager::ecs::{
    get_clusters, get_image_of_task_definition, get_images_of_a_cluster, get_images_of_clusters,
    get_images_of_services, get_services, service_batches, task_definitions_of,
    ContainerDefinition, Page, ServiceDescription, TaskDefinition, BATCH_CAP,
};
use aws_manager::errors::{ApiCall, DiscoveryError};

fn names(prefix: &str, count: usize) -> Vec<String> {
    (0..count).map(|i| format!("{}{}", prefix, i)).collect()
}

fn texts(items: &[&str]) -> Vec<String> {
    items.iter().map(|item| item.to_string()).collect()
}

fn failure(call: ApiCall, reason: &str) -> DiscoveryError {
    DiscoveryError { call, reason: reason.to_string() }
}

fn container(image: Option<&str>) -> ContainerDefinition {
    ContainerDefinition { image: image.map(|i| i.to_string()) }
}

fn task(containers: Vec<ContainerDefinition>) -> TaskDefinition {
    TaskDefinition { container_definitions: Some(containers) }
}

fn batch_sizes(count: usize) -> Vec<usize> {
    service_batches("c", &names("s", count)).iter().map(|b| b.services.len()).collect()
}

#[test]
fn cluster_pages_are_accumulated_in_order() {
    let mut clusters: Vec<String> = Vec::new();
    let next = get_clusters(
        &mut clusters,
        Ok(Page { items: Some(texts(&["b", "a"])), next_token: Some("t1".to_string()) }),
    );
    assert_eq!(next, Ok(Some("t1".to_string())));
    assert_eq!(clusters, texts(&["b", "a"]));
    let next = get_clusters(&mut clusters, Ok(Page { items: None, next_token: Some("t2".to_string()) }));
    assert_eq!(next, Ok(Some("t2".to_string())));
    assert_eq!(clusters, texts(&["b", "a"]));
    let next = get_clusters(&mut clusters, Ok(Page { items: Some(texts(&["c", "a"])), next_token: None }));
    assert_eq!(next, Ok(None));
    assert_eq!(clusters, texts(&["b", "a", "c", "a"]));
}

#[test]
fn failed_cluster_listing_is_tagged() {
    let mut clusters = texts(&["a"]);
    let next = get_clusters(&mut clusters, Err("denied".to_string()));
    assert_eq!(next, Err(failure(ApiCall::ListClusters, "denied")));
    assert_eq!(clusters, texts(&["a"]));
}

#[test]
fn service_pages_are_accumulated_in_order() {
    let mut services: Vec<String> = Vec::new();
    let next = get_services(
        &mut services,
        Ok(Page { items: Some(texts(&["s1"])), next_token: Some("t".to_string()) }),
    );
    assert_eq!(next, Ok(Some("t".to_string())));
    let next = get_services(&mut services, Ok(Page { items: Some(texts(&["s2"])), next_token: None }));
    assert_eq!(next, Ok(None));
    assert_eq!(services, texts(&["s1", "s2"]));
}

#[test]
fn failed_service_listing_is_tagged() {
    let mut services: Vec<String> = Vec::new();
    assert_eq!(
        get_services(&mut services, Err("throttled".to_string())),
        Err(failure(ApiCall::ListServices, "throttled"))
    );
    assert!(services.is_empty());
}

#[test]
fn batch_cap_is_ten() {
    assert_eq!(BATCH_CAP, 10);
}

#[test]
fn twenty_five_services_make_three_batches() {
    let services = names("svc", 25);
    let batches = service_batches("cluster-a", &services);
    assert_eq!(batches.len(), 3);
    assert_eq!(batches[0].services, services[0..10].to_vec());
    assert_eq!(batches[1].services, services[10..20].to_vec());
    assert_eq!(batches[2].services, services[20..25].to_vec());
    assert!(batches.iter().all(|b| b.cluster == "cluster-a"));
}

#[test]
fn batches_cover_every_service_once() {
    for count in 0..45usize {
        let services = names("s", count);
        let batches = service_batches("c", &services);
        assert_eq!(batches.len(), (count + 9) / 10);
        let mut joined: Vec<String> = Vec::new();
        for batch in &batches {
            assert!(!batch.services.is_empty());
            assert!(batch.services.len() <= 10);
            joined.extend(batch.services.iter().cloned());
        }
        assert_eq!(joined, services);
    }
}

#[test]
fn batch_sizes_at_the_edges() {
    assert_eq!(batch_sizes(0), Vec::<usize>::new());
    assert_eq!(batch_sizes(1), vec![1]);
    assert_eq!(batch_sizes(9), vec![9]);
    assert_eq!(batch_sizes(10), vec![10]);
    assert_eq!(batch_sizes(11), vec![10, 1]);
    assert_eq!(batch_sizes(20), vec![10, 10]);
    assert_eq!(batch_sizes(25), vec![10, 10, 5]);
}

#[test]
fn task_definitions_are_read_off_the_services() {
    let services = vec![
        ServiceDescription { task_definition: Some("td1".to_string()) },
        ServiceDescription { task_definition: None },
        ServiceDescription { task_definition: Some("td2".to_string()) },
        ServiceDescription { task_definition: Some("td1".to_string()) },
    ];
    assert_eq!(task_definitions_of(Ok(Some(services))), Ok(texts(&["td1", "td2", "td1"])));
    assert_eq!(task_definitions_of(Ok(Some(Vec::new()))), Ok(Vec::<String>::new()));
    assert_eq!(task_definitions_of(Ok(None)), Ok(Vec::<String>::new()));
}

#[test]
fn failed_describe_services_is_tagged() {
    assert_eq!(
        task_definitions_of(Err("boom".to_string())),
        Err(failure(ApiCall::DescribeServices, "boom"))
    );
}

#[test]
fn image_is_the_one_of_the_last_container() {
    let answer = Ok(Some(task(vec![container(Some("sidecar:1")), container(Some("app:2"))])));
    assert_eq!(get_image_of_task_definition(answer), Ok(Some("app:2".to_string())));
    let single = Ok(Some(task(vec![container(Some("only:1"))])));
    assert_eq!(get_image_of_task_definition(single), Ok(Some("only:1".to_string())));
}

#[test]
fn empty_container_list_gives_no_image() {
    assert_eq!(get_image_of_task_definition(Ok(Some(task(Vec::new())))), Ok(None));
}

#[test]
fn missing_parts_give_no_image() {
    assert_eq!(get_image_of_task_definition(Ok(None)), Ok(None));
    assert_eq!(
        get_image_of_task_definition(Ok(Some(TaskDefinition { container_definitions: None }))),
        Ok(None)
    );
    let last_without_image = Ok(Some(task(vec![container(Some("app:2")), container(None)])));
    assert_eq!(get_image_of_task_definition(last_without_image), Ok(None));
}

#[test]
fn failed_describe_task_definition_is_tagged() {
    assert_eq!(
        get_image_of_task_definition(Err("gone".to_string())),
        Err(failure(ApiCall::DescribeTaskDefinition, "gone"))
    );
}

#[test]
fn images_of_a_batch_keep_order_and_duplicates() {
    let answers = vec![
        Ok(Some("b:1".to_string())),
        Ok(None),
        Ok(Some("a:1".to_string())),
        Ok(Some("b:1".to_string())),
    ];
    assert_eq!(get_images_of_services(answers), Ok(texts(&["b:1", "a:1", "b:1"])));
    assert_eq!(get_images_of_services(Vec::new()), Ok(Vec::<String>::new()));
}

#[test]
fn first_failed_lookup_fails_the_batch() {
    let answers = vec![
        Ok(Some("a:1".to_string())),
        Err(failure(ApiCall::DescribeTaskDefinition, "first")),
        Ok(Some("b:1".to_string())),
        Err(failure(ApiCall::DescribeTaskDefinition, "second")),
    ];
    assert_eq!(
        get_images_of_services(answers),
        Err(failure(ApiCall::DescribeTaskDefinition, "first"))
    );
}

#[test]
fn cluster_images_are_the_batches_in_order() {
    let batches = vec![Ok(texts(&["a", "b"])), Ok(Vec::new()), Ok(texts(&["a"]))];
    assert_eq!(
        get_images_of_a_cluster("c1".to_string(), batches),
        Ok(("c1".to_string(), texts(&["a", "b", "a"])))
    );
    assert_eq!(
        get_images_of_a_cluster("empty".to_string(), Vec::new()),
        Ok(("empty".to_string(), Vec::<String>::new()))
    );
}

#[test]
fn failed_batch_fails_the_cluster() {
    let batches = vec![
        Ok(texts(&["a"])),
        Err(failure(ApiCall::DescribeServices, "second batch")),
        Ok(texts(&["b"])),
    ];
    assert_eq!(
        get_images_of_a_cluster("c1".to_string(), batches),
        Err(failure(ApiCall::DescribeServices, "second batch"))
    );
}

#[test]
fn clusters_are_filed_by_name() {
    let clusters = vec![
        Ok(("c2".to_string(), texts(&["x"]))),
        Ok(("c1".to_string(), texts(&["y", "y"]))),
        Ok(("c2".to_string(), texts(&["z"]))),
    ];
    let result = get_images_of_clusters(clusters).unwrap();
    assert_eq!(result.len(), 2);
    assert_eq!(result.key_at(0), "c2");
    assert_eq!(result.key_at(1), "c1");
    assert_eq!(result.get("c2"), Some(&texts(&["z"])));
    assert_eq!(result.get("c1"), Some(&texts(&["y", "y"])));
    assert_eq!(result.get("c3"), None);
    assert_eq!(get_images_of_clusters(Vec::new()).unwrap().len(), 0);
}

#[test]
fn failed_cluster_fails_the_role() {
    let clusters = vec![
        Ok(("c1".to_string(), texts(&["x"]))),
        Err(failure(ApiCall::ListServices, "nope")),
    ];
    match get_images_of_clusters(clusters) {
        Err(error) => assert_eq!(error, failure(ApiCall::ListServices, "nope")),
        Ok(_) => panic!("a partial result was handed out"),
    }
}

fn discover_role(
    clusters: &[&str],
    describe_services: &dyn Fn(usize) -> Result<Option<Vec<ServiceDescription>>, String>,
) -> Result<aws_manager::ecs::DiscoveryResult, DiscoveryError> {
    let mut listed: Vec<String> = Vec::new();
    get_clusters(&mut listed, Ok(Page { items: Some(texts(clusters)), next_token: None }))?;
    let mut outcomes = Vec::new();
    for cluster in listed {
        let mut services: Vec<String> = Vec::new();
        get_services(&mut services, Ok(Page { items: Some(names("svc", 25)), next_token: None }))?;
        let mut batches = Vec::new();
        for (place, _request) in service_batches(&cluster, &services).into_iter().enumerate() {
            let batch = task_definitions_of(describe_services(place)).and_then(|definitions| {
                let lookups = definitions
                    .into_iter()
                    .map(|definition| {
                        get_image_of_task_definition(Ok(Some(task(vec![container(Some(
                            &format!("repo/{}", definition),
                        ))]))))
                    })
                    .collect();
                get_images_of_services(lookups)
            });
            batches.push(batch);
        }
        outcomes.push(get_images_of_a_cluster(cluster, batches));
    }
    get_images_of_clusters(outcomes)
}

#[test]
fn failing_second_batch_fails_one_role_and_spares_its_sibling() {
    let healthy = |place: usize| {
        Ok(Some(vec![ServiceDescription { task_definition: Some(format!("td{}", place)) }]))
    };
    let broken = |place: usize| {
        if place == 1 {
            Err("second batch refused".to_string())
        } else {
            Ok(Some(vec![ServiceDescription { task_definition: Some(format!("td{}", place)) }]))
        }
    };
    let first = discover_role(&["c1", "c2"], &broken);
    let second = discover_role(&["c1", "c2"], &healthy);
    match first {
        Err(error) => assert_eq!(error, failure(ApiCall::DescribeServices, "second batch refused")),
        Ok(_) => panic!("the failing role handed out a result"),
    }
    let result = second.unwrap();
    assert_eq!(result.len(), 2);
    assert_eq!(result.get("c1"), Some(&texts(&["repo/td0", "repo/td1", "repo/td2"])));
    assert_eq!(result.get("c2"), Some(&texts(&["repo/td0", "repo/td1", "repo/td2"])));
}
