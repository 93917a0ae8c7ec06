use camcal::error::CalibError;
use camcal::layout::{JacobianBlock, Layout, Placement};

#[test]
fn sizes_follow_the_image_and_point_counts() {
    let l = Layout::new(3, 4);
    assert_eq!(l.num_images(), 3);
    assert_eq!(l.num_points(), 4);
    assert_eq!(l.param_len(), 22);
    assert_eq!(l.residual_len(), 24);
}

#[test]
fn empty_problem_has_only_intrinsics() {
    let l = Layout::new(0, 5);
    assert_eq!(l.param_len(), 4);
    assert_eq!(l.residual_len(), 0);
    assert!(l.assembly_plan().is_empty());
    assert!(l.pose_offsets().is_empty());
}

#[test]
fn pose_offsets_step_by_six() {
    let l = Layout::new(3, 2);
    assert_eq!(l.pose_offset(0), 4);
    assert_eq!(l.pose_offset(2), 16);
    assert_eq!(l.pose_offsets(), vec![4, 10, 16]);
}

#[test]
fn residual_rows_go_by_image_then_point() {
    let l = Layout::new(2, 3);
    assert_eq!(l.residual_row(0, 0), 0);
    assert_eq!(l.residual_row(0, 2), 4);
    assert_eq!(l.residual_row(1, 0), 6);
    assert_eq!(l.residual_row(1, 2), 10);
}

#[test]
fn assembly_plan_lists_every_observation_in_order() {
    let l = Layout::new(2, 2);
    let plan = l.assembly_plan();
    assert_eq!(
        plan,
        vec![
            Placement { image: 0, point: 0, row: 0, pose_col: 4 },
            Placement { image: 0, point: 1, row: 2, pose_col: 4 },
            Placement { image: 1, point: 0, row: 4, pose_col: 10 },
            Placement { image: 1, point: 1, row: 6, pose_col: 10 },
        ]
    );
}

#[test]
fn jacobian_blocks_are_diagonal_in_the_poses() {
    let l = Layout::new(3, 4);
    // rows 0..8 belong to image 0, rows 8..16 to image 1
    assert_eq!(l.block_at(0, 0), JacobianBlock::Intrinsic(0));
    assert_eq!(l.block_at(9, 3), JacobianBlock::Intrinsic(3));
    assert_eq!(l.block_at(7, 4), JacobianBlock::Pose(0));
    assert_eq!(l.block_at(7, 9), JacobianBlock::Pose(5));
    assert_eq!(l.block_at(7, 10), JacobianBlock::Zero);
    assert_eq!(l.block_at(8, 9), JacobianBlock::Zero);
    assert_eq!(l.block_at(8, 10), JacobianBlock::Pose(0));
    assert_eq!(l.block_at(23, 21), JacobianBlock::Pose(5));
    assert_eq!(l.block_at(23, 4), JacobianBlock::Zero);
}

#[test]
fn matching_observations_give_a_layout() {
    let r = Layout::from_observations(4, &vec![4, 4, 4]);
    assert_eq!(r, Ok(Layout::new(3, 4)));
}

#[test]
fn no_images_is_no_mismatch() {
    let r = Layout::from_observations(7, &vec![]);
    assert_eq!(r, Ok(Layout::new(0, 7)));
}

#[test]
fn fewer_observations_than_target_points_is_a_mismatch() {
    let r = Layout::from_observations(4, &vec![4, 3, 4]);
    assert_eq!(r, Err(CalibError::DimensionMismatch));
}

#[test]
fn more_observations_than_target_points_is_a_mismatch() {
    let r = Layout::from_observations(2, &vec![2, 2, 5]);
    assert_eq!(r, Err(CalibError::DimensionMismatch));
}

#[test]
fn parameter_vector_length_is_checked() {
    let l = Layout::new(2, 5);
    assert_eq!(l.check_param_len(16), Ok(()));
    assert_eq!(l.check_param_len(15), Err(CalibError::DimensionMismatch));
    assert_eq!(l.check_param_len(22), Err(CalibError::DimensionMismatch));
}

#[test]
fn errors_have_names() {
    assert_eq!(CalibError::DimensionMismatch.message(), "dimension mismatch");
    assert_eq!(CalibError::DegenerateGeometry.message(), "degenerate geometry");
}

#[test]
fn observation_rows_never_overlap() {
    let l = Layout::new(3, 5);
    let plan = l.assembly_plan();
    for a in &plan {
        for b in &plan {
            if a != b {
                assert!(a.row + 2 <= b.row || b.row + 2 <= a.row);
            }
        }
    }
}

#[test]
fn plan_columns_match_the_block_structure() {
    let l = Layout::new(3, 2);
    for place in l.assembly_plan() {
        for t in 0..2 {
            let row = place.row + t;
            for k in 0..4 {
                assert_eq!(l.block_at(row, k), JacobianBlock::Intrinsic(k));
            }
            for other in 0..3 {
                for k in 0..6 {
                    let expected = if other == place.image { JacobianBlock::Pose(k) } else { JacobianBlock::Zero };
                    assert_eq!(l.block_at(row, l.pose_offset(other) + k), expected);
                }
            }
            for k in 0..6 {
                assert_eq!(l.block_at(row, place.pose_col + k), JacobianBlock::Pose(k));
            }
        }
    }
}
