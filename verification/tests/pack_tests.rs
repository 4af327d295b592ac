use falling_petals::entity::{PetalState, Pose, Vec3};
use falling_petals::pack::{pack_u32s_le, pack_uniform_u32, pack_variant_indices};
use falling_petals::quat::identity;

#[test]
fn words_pack_little_endian() {
    let bytes = pack_u32s_le(&vec![0x0403_0201, 0xffff_fffe]);
    assert_eq!(bytes, vec![0x01, 0x02, 0x03, 0x04, 0xfe, 0xff, 0xff, 0xff]);
}

#[test]
fn empty_input_packs_to_no_bytes() {
    assert!(pack_u32s_le(&vec![]).is_empty());
}

#[test]
fn uniform_padding_is_twelve_zero_bytes() {
    let bytes = pack_uniform_u32(7);
    assert_eq!(bytes.len(), 16);
    assert_eq!(&bytes[0..4], &[7, 0, 0, 0]);
    assert!(bytes[4..].iter().all(|&b| b == 0));
}

#[test]
fn variant_indices_pack_in_entity_order() {
    let petal = |id: u32| PetalState {
        pose: Pose {
            position: Vec3 { x: 0, y: 0, z: 0 },
            orientation: identity(),
            aspect_ratio: 1,
            scale: 1,
        },
        variant_index: id,
        rotation: identity(),
    };
    let petals = vec![petal(3), petal(1), petal(2)];
    let bytes = pack_variant_indices(&petals);
    assert_eq!(bytes, vec![3, 0, 0, 0, 1, 0, 0, 0, 2, 0, 0, 0]);
}
