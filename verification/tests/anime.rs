use rog_core::anime::{
    AnimeDataBuffer, AnimePacketType, ANIME_DATA_LEN, BLOCK_END, BLOCK_START, PACKET_LEN,
    PANE_LEN, USB_PREFIX1, USB_PREFIX2,
};

fn patterned() -> Vec<u8> {
    let mut data = Vec::with_capacity(ANIME_DATA_LEN);
    for i in 0..ANIME_DATA_LEN {
        data.push((i % 251) as u8 + 1);
    }
    data
}

#[test]
fn lengths_are_as_documented() {
    assert_eq!(BLOCK_START, 7);
    assert_eq!(BLOCK_END, 634);
    assert_eq!(PANE_LEN, 627);
    assert_eq!(ANIME_DATA_LEN, 1254);
    assert_eq!(PACKET_LEN, 640);
}

#[test]
fn new_buffer_is_all_zero() {
    let buffer = AnimeDataBuffer::new();
    assert_eq!(buffer.get().len(), 1254);
    assert!(buffer.get().iter().all(|b| *b == 0));
}

#[test]
fn default_buffer_is_all_zero() {
    let buffer = AnimeDataBuffer::default();
    assert_eq!(buffer.get(), AnimeDataBuffer::new().get());
    assert_eq!(buffer.get().len(), ANIME_DATA_LEN);
}

#[test]
fn from_vec_keeps_every_byte() {
    let data = patterned();
    let buffer = AnimeDataBuffer::from_vec(data.clone());
    assert_eq!(buffer.get(), data.as_slice());
}

#[test]
fn get_mut_changes_the_buffer_in_place() {
    let mut buffer = AnimeDataBuffer::new();
    {
        let bytes = buffer.get_mut();
        assert_eq!(bytes.len(), ANIME_DATA_LEN);
        bytes[0] = 0x11;
        bytes[626] = 0x22;
        bytes[627] = 0x33;
        bytes[1253] = 0x44;
    }
    assert_eq!(buffer.get()[0], 0x11);
    assert_eq!(buffer.get()[626], 0x22);
    assert_eq!(buffer.get()[627], 0x33);
    assert_eq!(buffer.get()[1253], 0x44);
    assert_eq!(buffer.get()[1], 0);
    assert_eq!(buffer.get().len(), ANIME_DATA_LEN);
}

#[test]
fn clone_is_a_copy() {
    let mut buffer = AnimeDataBuffer::from_vec(patterned());
    let copy = buffer.clone();
    buffer.get_mut()[5] = 0;
    assert_eq!(copy.get(), patterned().as_slice());
    assert_eq!(buffer.get()[5], 0);
}

#[test]
fn packets_start_with_their_headers() {
    let packets = AnimePacketType::from(AnimeDataBuffer::from_vec(patterned()));
    assert_eq!(packets[0][..7], [0x5e, 0xc0, 0x02, 0x01, 0x00, 0x73, 0x02]);
    assert_eq!(packets[1][..7], [0x5e, 0xc0, 0x02, 0x74, 0x02, 0x73, 0x02]);
    assert_eq!(packets[0][..7], USB_PREFIX1);
    assert_eq!(packets[1][..7], USB_PREFIX2);
}

#[test]
fn headers_and_padding_do_not_depend_on_the_payload() {
    let zero = AnimePacketType::from(AnimeDataBuffer::new());
    let full = AnimePacketType::from(AnimeDataBuffer::from_vec(vec![0xff; ANIME_DATA_LEN]));
    for packets in [zero, full] {
        assert_eq!(packets[0][..7], USB_PREFIX1);
        assert_eq!(packets[1][..7], USB_PREFIX2);
        assert_eq!(packets[0][634..], [0u8; 6]);
        assert_eq!(packets[1][634..], [0u8; 6]);
    }
}

#[test]
fn packets_carry_the_two_halves_in_order() {
    let data = patterned();
    let packets = AnimePacketType::from(AnimeDataBuffer::from_vec(data.clone()));
    assert_eq!(packets[0][7..634], data[..627]);
    assert_eq!(packets[1][7..634], data[627..]);
    assert_eq!(packets[0][7], 1);
    assert_eq!(packets[0][633], (626 % 251) as u8 + 1);
    assert_eq!(packets[1][7], (627 % 251) as u8 + 1);
    assert_eq!(packets[1][633], (1253 % 251) as u8 + 1);
}

#[test]
fn packets_are_640_bytes_and_end_in_zeros() {
    let packets = AnimePacketType::from(AnimeDataBuffer::from_vec(patterned()));
    assert_eq!(packets.len(), 2);
    assert_eq!(packets[0].len(), 640);
    assert_eq!(packets[1].len(), 640);
    assert_eq!(packets[0][634..640], [0, 0, 0, 0, 0, 0]);
    assert_eq!(packets[1][634..640], [0, 0, 0, 0, 0, 0]);
}

#[test]
fn zero_payload_gives_headers_and_zeros() {
    let packets = AnimePacketType::from(AnimeDataBuffer::new());
    let mut first = [0u8; 640];
    first[..7].copy_from_slice(&[0x5e, 0xc0, 0x02, 0x01, 0x00, 0x73, 0x02]);
    let mut second = [0u8; 640];
    second[..7].copy_from_slice(&[0x5e, 0xc0, 0x02, 0x74, 0x02, 0x73, 0x02]);
    assert_eq!(packets[0], first);
    assert_eq!(packets[1], second);
}

#[test]
fn a_single_byte_lands_at_its_offset() {
    for position in [0usize, 1, 626, 627, 628, 1253] {
        let mut data = vec![0u8; ANIME_DATA_LEN];
        data[position] = 0xab;
        let packets = AnimePacketType::from(AnimeDataBuffer::from_vec(data));
        let packet = position / 627;
        let offset = 7 + position % 627;
        for p in 0..2 {
            for i in 7..640 {
                let expected = if p == packet && i == offset { 0xab } else { 0 };
                assert_eq!(packets[p][i], expected);
            }
        }
    }
}

#[test]
fn into_gives_the_same_packets() {
    let packets: AnimePacketType = AnimeDataBuffer::from_vec(patterned()).into();
    assert_eq!(packets, AnimePacketType::from(AnimeDataBuffer::from_vec(patterned())));
}

#[test]
fn different_payloads_give_different_packets() {
    let mut other = patterned();
    other[700] ^= 0x80;
    let a = AnimePacketType::from(AnimeDataBuffer::from_vec(patterned()));
    let b = AnimePacketType::from(AnimeDataBuffer::from_vec(other));
    assert_eq!(a[0], b[0]);
    assert_ne!(a[1], b[1]);
}
