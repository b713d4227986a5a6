use clustered_shading::pipeline::assign_light_indices;
use clustered_shading::pipeline::compact_cluster_indices;
use clustered_shading::pipeline::exclusive_prefix_sum;

#[test]
fn compaction_keeps_touched_clusters_in_order() {
    let counts = vec![5u32, 0, 1, 2, 0];
    let active = compact_cluster_indices(&counts);
    assert_eq!(active, vec![0u32, 2, 3]);
}

#[test]
fn compaction_of_an_untouched_grid_is_empty() {
    let counts = vec![0u32, 0, 0, 0];
    let active = compact_cluster_indices(&counts);
    assert!(active.is_empty());
    let empty: Vec<u32> = Vec::new();
    assert!(compact_cluster_indices(&empty).is_empty());
}

#[test]
fn compaction_of_a_fully_touched_grid_is_everything() {
    let counts = vec![1u32, 7, 3];
    let active = compact_cluster_indices(&counts);
    assert_eq!(active, vec![0u32, 1, 2]);
}

#[test]
fn prefix_sum_reserves_disjoint_ranges() {
    let counts = vec![2u32, 0, 3, 1];
    let (offsets, total) = exclusive_prefix_sum(&counts);
    assert_eq!(offsets, vec![0u32, 2, 2, 5]);
    assert_eq!(total, 6);
    // Each cluster's range ends where no later range begins.
    for i in 0..counts.len() {
        for j in (i + 1)..counts.len() {
            assert!(offsets[i] + counts[i] <= offsets[j]);
        }
        assert!(offsets[i] + counts[i] <= total);
    }
}

#[test]
fn assignment_writes_each_cluster_into_its_reserved_range() {
    let cluster_lights = vec![vec![4u32, 7], vec![], vec![1, 2, 9]];
    let flat = assign_light_indices(&cluster_lights);
    assert_eq!(flat, vec![4u32, 7, 1, 2, 9]);

    // The offsets stage four computes from the counts locate each cluster's
    // entries within the flat list.
    let counts: Vec<u32> = cluster_lights.iter().map(|l| l.len() as u32).collect();
    let (offsets, total) = exclusive_prefix_sum(&counts);
    assert_eq!(total as usize, flat.len());
    for (i, lights) in cluster_lights.iter().enumerate() {
        let start = offsets[i] as usize;
        assert_eq!(&flat[start..start + lights.len()], lights.as_slice());
    }
}

#[test]
fn prefix_sum_of_nothing_is_nothing() {
    let counts: Vec<u32> = Vec::new();
    let (offsets, total) = exclusive_prefix_sum(&counts);
    assert!(offsets.is_empty());
    assert_eq!(total, 0);
}

#[test]
fn prefix_sum_of_zeros_stays_at_zero() {
    let counts = vec![0u32, 0, 0];
    let (offsets, total) = exclusive_prefix_sum(&counts);
    assert_eq!(offsets, vec![0u32, 0, 0]);
    assert_eq!(total, 0);
}
