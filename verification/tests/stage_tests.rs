use clustered_shading::stage::ClusterStage;
use clustered_shading::stage::ClusterStages;
use clustered_shading::stage::SampleIndex;

#[test]
fn stages_iterate_in_declaration_order() {
    let values = ClusterStage::values();
    assert_eq!(
        values,
        [
            ClusterStage::CompactClusters,
            ClusterStage::UploadLights,
            ClusterStage::CountLights,
            ClusterStage::LightOffsets,
            ClusterStage::AssignLights,
        ]
    );
}

#[test]
fn stage_titles_are_fixed() {
    assert_eq!(ClusterStage::CompactClusters.title(), "cluster.compact_clusters");
    assert_eq!(ClusterStage::UploadLights.title(), "cluster.upload_lights");
    assert_eq!(ClusterStage::CountLights.title(), "cluster.count_lights");
    assert_eq!(ClusterStage::LightOffsets.title(), "cluster.compact_lights");
    assert_eq!(ClusterStage::AssignLights.title(), "cluster.assign_lights");
}

#[test]
fn every_stage_has_exactly_one_datum() {
    let stages = ClusterStages::new(
        SampleIndex(0),
        SampleIndex(1),
        SampleIndex(2),
        SampleIndex(3),
        SampleIndex(4),
    );
    for (i, stage) in ClusterStage::values().iter().enumerate() {
        assert_eq!(*stages.index(*stage), SampleIndex(i));
    }
}
