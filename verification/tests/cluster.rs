use canary_examples::cluster::{DistributedFibCluster, DistributedFibNode, FibPlan};

#[test]
fn empty_cluster_computes_locally() {
    let cluster: DistributedFibCluster<u32> = DistributedFibCluster::default();
    assert!(cluster.nodes.is_empty());
    match cluster.plan_calculation(5) {
        FibPlan::Local(v) => assert_eq!(v, 8),
        FibPlan::Remote { .. } => panic!("no node to ask"),
    }
}

#[test]
fn inserted_nodes_keep_join_order() {
    let mut cluster: DistributedFibCluster<&str> = DistributedFibCluster::default();
    cluster.insert_node("a");
    cluster.insert_node("b");
    cluster.insert_node("c");
    assert_eq!(cluster.nodes, vec!["a", "b", "c"]);
}

#[test]
fn cluster_with_nodes_picks_a_node_in_range() {
    let mut cluster: DistributedFibCluster<u8> = DistributedFibCluster::default();
    for i in 0..4u8 {
        cluster.insert_node(i);
    }
    let mut seen = [false; 4];
    for _ in 0..400 {
        match cluster.plan_calculation(1000) {
            FibPlan::Remote { node_num: i, num } => {
                assert!(i < 4);
                assert_eq!(num, 1000);
                seen[i] = true;
            }
            FibPlan::Local(_) => panic!("nodes are available"),
        }
    }
    // a random pick over 400 draws reaches every node
    assert!(seen.iter().all(|s| *s));
}

#[test]
fn single_node_is_always_chosen() {
    let mut cluster: DistributedFibCluster<u8> = DistributedFibCluster::default();
    cluster.insert_node(9);
    for _ in 0..20 {
        assert!(matches!(cluster.plan_calculation(3), FibPlan::Remote { node_num: 0, num: 3 }));
    }
}

#[test]
fn successful_reply_is_passed_on_and_keeps_nodes() {
    let mut cluster: DistributedFibCluster<u8> = DistributedFibCluster::default();
    cluster.insert_node(1);
    cluster.insert_node(2);
    let answer = cluster.finish_calculation::<()>(1, 10, Ok(89));
    assert_eq!(answer, 89);
    assert_eq!(cluster.nodes, vec![1, 2]);
}

#[test]
fn failed_node_is_dropped_and_answer_computed_locally() {
    let mut cluster: DistributedFibCluster<u8> = DistributedFibCluster::default();
    cluster.insert_node(1);
    cluster.insert_node(2);
    cluster.insert_node(3);
    let answer = cluster.finish_calculation(1, 10, Err("connection reset"));
    assert_eq!(answer, 89);
    assert_eq!(cluster.nodes, vec![1, 3]);
}

#[test]
fn every_path_answers_the_same_number() {
    let node = DistributedFibNode;
    for num in [0u64, 1, 2, 10, 50, 92] {
        let local = match DistributedFibCluster::<u8>::default().plan_calculation(num) {
            FibPlan::Local(v) => v,
            FibPlan::Remote { .. } => unreachable!(),
        };
        let mut cluster: DistributedFibCluster<u8> = DistributedFibCluster::default();
        cluster.insert_node(0);
        let remote = cluster.finish_calculation::<()>(0, num, Ok(node.fibonacci(num)));
        let failover = cluster.finish_calculation(0, num, Err(()));
        assert_eq!(local, remote);
        assert_eq!(local, failover);
        assert!(cluster.nodes.is_empty());
    }
}

#[test]
fn node_answers_fibonacci() {
    let node = DistributedFibNode;
    assert_eq!(node.fibonacci(0), 1);
    assert_eq!(node.fibonacci(10), 89);
    assert_eq!(node.fibonacci(92), 12200160415121876738);
}

#[test]
fn many_joins_keep_order() {
    let mut cluster: DistributedFibCluster<u32> = DistributedFibCluster::default();
    for i in 0..50u32 {
        cluster.insert_node(i * 3);
    }
    assert_eq!(cluster.nodes, (0..50u32).map(|i| i * 3).collect::<Vec<_>>());
}
