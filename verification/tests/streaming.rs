use skelanim::fixed::FX_ONE;
use skelanim::importer::build_joint;
use skelanim::linalg::Mat4;
use skelanim::meshdata::{
    assemble_skinned_mesh, assemble_static_mesh, CornerRef, MeshVertex, StreamedMeshPayload,
    TexCoord, TriangleRef,
};
use skelanim::quat::Vec3;
use skelanim::queue::MeshStreamQueue;
use skelanim::scene::{
    cam_action, cam_speed, schedule_updates, CamAction, KeyStates, World, CAM_SPEED_BOOST_FX,
    CAM_SPEED_FX, QUARTER_PI_FX, STREAM_SCALE_FX,
};
use skelanim::skeleton::AssetError;
use skelanim::weights::{accumulate_weights, VertexWeights, WeightEntry};

fn vert(x: i64) -> MeshVertex {
    MeshVertex {
        position: Vec3 { x, y: 0, z: 0 },
        normal: Vec3 { x: 0, y: FX_ONE, z: 0 },
        tex: TexCoord { u: 0, v: 0 },
    }
}

fn payload(tag: i64) -> StreamedMeshPayload {
    StreamedMeshPayload { vertices: vec![vert(tag)], indices: vec![0] }
}

#[test]
fn queue_drains_exactly_what_was_pushed() {
    // Three pushes, drained once per simulated frame: exactly three
    // payloads over four frames, in arrival order, and the hint ends
    // at zero without ever underflowing.
    let mut q = MeshStreamQueue::new();
    q.push_payload(payload(1));
    q.push_payload(payload(2));
    q.push_payload(payload(3));
    assert_eq!(q.ready_hint(), 3);
    let mut received = Vec::new();
    for _frame in 0..4 {
        if let Some(p) = q.poll() {
            received.push(p.vertices[0].position.x);
        }
    }
    assert_eq!(received, vec![1, 2, 3]);
    assert_eq!(q.ready_hint(), 0);
    assert_eq!(q.pending(), 0);
}

#[test]
fn empty_poll_is_a_benign_no_op() {
    let mut q = MeshStreamQueue::new();
    assert!(q.poll().is_none());
    assert_eq!(q.ready_hint(), 0);
    q.push_payload(payload(9));
    assert!(q.poll().is_some());
    assert!(q.poll().is_none());
    assert_eq!(q.ready_hint(), 0);
}

#[test]
fn vertex_weights_cap_at_four() {
    // Three distinct contributions land in encounter order with a
    // count of three; the fourth fills the record, and a fifth leaves
    // the first four untouched.
    let mut v = VertexWeights::first(10, 100);
    v.push_entry(11, 101);
    v.push_entry(12, 102);
    assert_eq!(v.joint_c, 3);
    assert_eq!(v.joint_i, [10, 11, 12, 0]);
    assert_eq!(v.weights, [100, 101, 102, 0]);
    v.push_entry(13, 103);
    v.push_entry(14, 104);
    assert_eq!(v.joint_c, 4);
    assert_eq!(v.joint_i, [10, 11, 12, 13]);
    assert_eq!(v.weights, [100, 101, 102, 103]);
}

#[test]
fn weight_accumulation_grows_or_appends() {
    // A contribution for a fresh vertex opens a record; every other
    // contribution lands on the latest record.
    let entries = vec![
        WeightEntry { vertex: 0, joint: 1, weight: 5 },
        WeightEntry { vertex: 0, joint: 2, weight: 6 },
        WeightEntry { vertex: 1, joint: 3, weight: 7 },
        WeightEntry { vertex: 1, joint: 4, weight: 8 },
    ];
    let out = accumulate_weights(&entries);
    assert_eq!(out.len(), 2);
    assert_eq!(out[0].joint_c, 2);
    assert_eq!(out[0].joint_i, [1, 2, 0, 0]);
    assert_eq!(out[0].weights, [5, 6, 0, 0]);
    assert_eq!(out[1].joint_c, 2);
    assert_eq!(out[1].joint_i, [3, 4, 0, 0]);
}

#[test]
fn static_assembly_flattens_triangles() {
    let positions = vec![
        Vec3 { x: 0, y: 0, z: 0 },
        Vec3 { x: FX_ONE, y: 0, z: 0 },
        Vec3 { x: 0, y: FX_ONE, z: 0 },
    ];
    let normals = vec![Vec3 { x: 0, y: 0, z: FX_ONE }];
    let texcoords = vec![TexCoord { u: 0, v: 0 }, TexCoord { u: FX_ONE, v: 0 }];
    let c = |pos: usize, tex: usize| CornerRef { pos, norm: 0, tex };
    let triangles = vec![TriangleRef { a: c(0, 0), b: c(1, 1), c: c(2, 0) }];
    let m = assemble_static_mesh(&positions, &normals, &texcoords, &triangles).unwrap();
    assert_eq!(m.vertices.len(), 3);
    assert_eq!(m.indices, vec![0, 1, 2]);
    assert_eq!(m.vertices[1].position, positions[1]);
    assert_eq!(m.vertices[1].tex, texcoords[1]);
    assert_eq!(m.vertices[2].normal, normals[0]);
}

#[test]
fn static_assembly_rejects_bad_indices() {
    let positions = vec![Vec3 { x: 0, y: 0, z: 0 }];
    let normals = vec![Vec3 { x: 0, y: 0, z: FX_ONE }];
    let texcoords = vec![TexCoord { u: 0, v: 0 }];
    let c = CornerRef { pos: 5, norm: 0, tex: 0 };
    let triangles = vec![TriangleRef { a: c, b: c, c }];
    let r = assemble_static_mesh(&positions, &normals, &texcoords, &triangles);
    assert_eq!(r.err(), Some(AssetError::IndexOutOfRange));
}

#[test]
fn static_assembly_rejects_an_oversized_mesh() {
    let positions = vec![Vec3 { x: 0, y: 0, z: 0 }];
    let normals = vec![Vec3 { x: 0, y: 0, z: FX_ONE }];
    let texcoords = vec![TexCoord { u: 0, v: 0 }];
    let c = CornerRef { pos: 0, norm: 0, tex: 0 };
    let triangles = vec![TriangleRef { a: c, b: c, c }; 21846];
    let r = assemble_static_mesh(&positions, &normals, &texcoords, &triangles);
    assert_eq!(r.err(), Some(AssetError::TooManyVertices));
}

#[test]
fn skinned_assembly_resolves_weight_records() {
    let positions = vec![Vec3 { x: 0, y: 0, z: 0 }, Vec3 { x: FX_ONE, y: 0, z: 0 }];
    let normals = vec![Vec3 { x: 0, y: 0, z: FX_ONE }];
    let texcoords = vec![TexCoord { u: 0, v: 0 }];
    let weight_table = vec![0, FX_ONE / 2, FX_ONE / 4];
    let vws = vec![
        VertexWeights { joint_i: [1, 2, 0, 0], weights: [1, 2, 0, 0], joint_c: 2 },
        VertexWeights { joint_i: [3, 0, 0, 0], weights: [2, 0, 0, 0], joint_c: 1 },
    ];
    let c = |pos: usize| CornerRef { pos, norm: 0, tex: 0 };
    let triangles = vec![TriangleRef { a: c(0), b: c(1), c: c(0) }];
    let (verts, indices) =
        assemble_skinned_mesh(&positions, &normals, &texcoords, &weight_table, &vws, &triangles)
            .unwrap();
    assert_eq!(indices, vec![0, 1, 2]);
    assert_eq!(verts.len(), 3);
    assert_eq!(verts[0].joint_c, 2);
    assert_eq!(verts[0].joint_mi, [1, 2, 0, 0]);
    assert_eq!(verts[0].weights, [FX_ONE / 2, FX_ONE / 4, 0, 0]);
    assert_eq!(verts[1].joint_c, 1);
    assert_eq!(verts[1].joint_mi, [3, 0, 0, 0]);
    assert_eq!(verts[1].weights, [FX_ONE / 4, 0, 0, 0]);
}

#[test]
fn skinned_assembly_rejects_a_bad_weight_index() {
    let positions = vec![Vec3 { x: 0, y: 0, z: 0 }];
    let normals = vec![Vec3 { x: 0, y: 0, z: FX_ONE }];
    let texcoords = vec![TexCoord { u: 0, v: 0 }];
    let weight_table = vec![0];
    let vws = vec![VertexWeights { joint_i: [0; 4], weights: [7, 0, 0, 0], joint_c: 1 }];
    let c = CornerRef { pos: 0, norm: 0, tex: 0 };
    let triangles = vec![TriangleRef { a: c, b: c, c }];
    let r =
        assemble_skinned_mesh(&positions, &normals, &texcoords, &weight_table, &vws, &triangles);
    assert_eq!(r.err(), Some(AssetError::IndexOutOfRange));
}

#[test]
fn importer_decomposes_a_translation_sample() {
    // A row-major identity rotation with a translation of (3, 0, 4) in
    // its bottom row decomposes to the identity quaternion, a length
    // of five and the normalised direction.
    let mut raw = Mat4::identity();
    raw.m30 = 3 * FX_ONE;
    raw.m31 = 0;
    raw.m32 = 4 * FX_ONE;
    let times = vec![0i64];
    let poses = vec![raw];
    let j = build_joint(None, &Mat4::identity(), &times, &poses).unwrap();
    assert_eq!(j.keyframes.len(), 1);
    let k = &j.keyframes[0];
    assert_eq!(k.timestamp, 0);
    assert_eq!(k.length, 5 * FX_ONE);
    assert_eq!(k.rotation.s, FX_ONE);
    assert_eq!(k.rotation.x, 0);
    // direction = (3/5, 0, 4/5)
    assert_eq!(k.direction.x, 3 * FX_ONE / 5);
    assert_eq!(k.direction.z, 4 * FX_ONE / 5);
    // The stored inverse bind pose is the transpose of the raw one.
    assert_eq!(j.inv_bind, Mat4::identity());
}

#[test]
fn importer_rejects_mismatched_samples() {
    let times = vec![0i64, FX_ONE];
    let poses = vec![Mat4::identity()];
    let r = build_joint(None, &Mat4::identity(), &times, &poses);
    assert_eq!(r.err(), Some(AssetError::MismatchedSamples));
}

#[test]
fn world_drains_one_streamed_mesh_per_frame() {
    let mut w = World::new();
    w.queue.push_payload(payload(1));
    w.queue.push_payload(payload(2));
    w.drain_streamed();
    assert_eq!(w.models.len(), 1);
    w.drain_streamed();
    assert_eq!(w.models.len(), 2);
    // A further frame with an empty queue changes nothing.
    w.drain_streamed();
    assert_eq!(w.models.len(), 2);
    // Placement: the first mesh sits at x = 0, the second one unit
    // further, both two units in and downscaled.
    let first = &w.models[0].0;
    assert_eq!(first.translation.m03, 0);
    assert_eq!(first.translation.m23, 2 * FX_ONE);
    assert_eq!(first.scale.m00, STREAM_SCALE_FX);
    let second = &w.models[1].0;
    assert_eq!(second.translation.m03, FX_ONE);
    assert_eq!(second.rotation, Mat4::identity());
    assert_eq!(w.models[0].1.vertices[0].position.x, 1);
    assert_eq!(w.models[1].1.vertices[0].position.x, 2);
}

#[test]
fn scheduler_splits_lag_into_fixed_steps() {
    let (steps, lag) = schedule_updates(5000, 23000, 10000);
    assert_eq!(steps, 2);
    assert_eq!(lag, 8000);
    let (steps, lag) = schedule_updates(0, 9999, 10000);
    assert_eq!(steps, 0);
    assert_eq!(lag, 9999);
}

#[test]
fn camera_decisions_follow_the_key_chords() {
    let none = KeyStates {
        forward: false,
        back: false,
        left: false,
        right: false,
        up: false,
        down: false,
        boost: false,
    };
    assert_eq!(cam_action(&none), CamAction::Hold);
    let fwd = KeyStates { forward: true, ..none };
    assert_eq!(cam_action(&fwd), CamAction::Forward);
    let diag = KeyStates { forward: true, left: true, ..none };
    assert_eq!(cam_action(&diag), CamAction::MoveAngle(QUARTER_PI_FX));
    let conflict = KeyStates { forward: true, back: true, ..none };
    assert_eq!(cam_action(&conflict), CamAction::Hold);
    let strafe = KeyStates { left: true, ..none };
    assert_eq!(cam_action(&strafe), CamAction::StrafeRight);
    assert_eq!(cam_speed(false), CAM_SPEED_FX);
    assert_eq!(cam_speed(true), CAM_SPEED_BOOST_FX);
}
