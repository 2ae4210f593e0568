//! Wire layout of the data sent to the LED matrix display.
//!
//! One update of the display is a payload of [`ANIME_DATA_LEN`] bytes. It
//! travels as two USB reports of [`PACKET_LEN`] bytes each: a fixed header of
//! [`BLOCK_START`] bytes, one half of the payload, and zero padding.

use vstd::prelude::*;

verus! {

/// Offset of the first payload byte in a report; the bytes before it are the header.
pub const BLOCK_START: usize = 7;

/// Offset one past the last payload byte in a report.
pub const BLOCK_END: usize = 634;

/// Number of payload bytes carried by one report.
pub const PANE_LEN: usize = BLOCK_END - BLOCK_START;

/// Number of payload bytes of one display update.
pub const ANIME_DATA_LEN: usize = PANE_LEN * 2;

/// Total length of one USB report.
pub const PACKET_LEN: usize = 640;

/// Header of the report that carries the first half of the payload.
pub const USB_PREFIX1: [u8; BLOCK_START] = [0x5e, 0xc0, 0x02, 0x01, 0x00, 0x73, 0x02];

/// Header of the report that carries the second half of the payload.
pub const USB_PREFIX2: [u8; BLOCK_START] = [0x5e, 0xc0, 0x02, 0x74, 0x02, 0x73, 0x02];

/// The payload of one display update.
///
/// A buffer always holds exactly [`ANIME_DATA_LEN`] bytes.
#[derive(Debug)]
pub struct AnimeDataBuffer([u8; ANIME_DATA_LEN]);

impl View for AnimeDataBuffer {
    type V = Seq<u8>;

    closed spec fn view(&self) -> Seq<u8> {
        self.0@
    }
}

impl Clone for AnimeDataBuffer {
    /// A buffer with the same bytes.
    fn clone(&self) -> (copy: Self)
        ensures
            copy@ == self@,
    {
        AnimeDataBuffer(self.0)
    }
}

impl Default for AnimeDataBuffer {
    /// A buffer of [`ANIME_DATA_LEN`] zero bytes.
    fn default() -> (buffer: Self)
        ensures
            buffer@ == Seq::new(ANIME_DATA_LEN as nat, |i: int| 0u8),
    {
        Self::new()
    }
}

impl AnimeDataBuffer {
    /// A buffer of [`ANIME_DATA_LEN`] zero bytes.
    pub fn new() -> (buffer: Self)
        ensures
            buffer@ == Seq::new(ANIME_DATA_LEN as nat, |i: int| 0u8),
    {
        AnimeDataBuffer([0u8; ANIME_DATA_LEN])
    }

    /// The bytes of the buffer.
    pub fn get(&self) -> (bytes: &[u8])
        ensures
            bytes@ == self@,
            bytes@.len() == ANIME_DATA_LEN,
    {
        &self.0
    }

    /// The bytes of the buffer, open to change in place.
    pub fn get_mut(&mut self) -> (bytes: &mut [u8])
        ensures
            bytes@ == old(self)@,
            final(self)@ == final(bytes)@,
    {
        &mut self.0
    }

    /// The buffer that holds the bytes of `input`, of which there must be
    /// exactly [`ANIME_DATA_LEN`].
    pub fn from_vec(input: Vec<u8>) -> (buffer: Self)
        requires
            input@.len() == ANIME_DATA_LEN,
        ensures
            buffer@ == input@,
    {
        let mut bytes = [0u8; ANIME_DATA_LEN];
        let mut n: usize = 0;
        while n < ANIME_DATA_LEN
            invariant
                n <= ANIME_DATA_LEN,
                input@.len() == ANIME_DATA_LEN,
                forall|i: int| 0 <= i < n ==> bytes@[i] == input@[i],
            decreases ANIME_DATA_LEN - n,
        {
            bytes[n] = input[n];
            n = n + 1;
        }
        AnimeDataBuffer(bytes)
    }
}

/// A buffer holds exactly [`ANIME_DATA_LEN`] bytes, whatever was done to it.
pub proof fn lemma_buffer_len(buffer: AnimeDataBuffer)
    ensures
        buffer@.len() == ANIME_DATA_LEN,
{
}

/// The two reports of one display update, in the order in which they are sent.
pub type AnimePacketType = [[u8; PACKET_LEN]; 2];

/// The bytes of one report: its header, its half of the payload, and zeros up
/// to [`PACKET_LEN`].
pub open spec fn report(prefix: Seq<u8>, pane: Seq<u8>) -> Seq<u8> {
    prefix + pane + padding()
}

/// The zeros at the end of a report.
pub open spec fn padding() -> Seq<u8> {
    Seq::new((PACKET_LEN - BLOCK_END) as nat, |i: int| 0u8)
}

/// The half of a payload that report number `index` carries.
pub open spec fn pane(data: Seq<u8>, index: int) -> Seq<u8> {
    data.subrange(index * PANE_LEN, (index + 1) * PANE_LEN)
}

/// Whether `packets` is the wire form of the payload `data`.
pub open spec fn encodes(packets: AnimePacketType, data: Seq<u8>) -> bool {
    &&& packets[0]@ == report(USB_PREFIX1@, pane(data, 0))
    &&& packets[1]@ == report(USB_PREFIX2@, pane(data, 1))
}

/// The wire form of the payload `data`.
pub open spec fn wire_form(data: Seq<u8>) -> AnimePacketType {
    choose|packets: AnimePacketType| encodes(packets, data)
}

/// A report is [`PACKET_LEN`] bytes long, and its header, its part of the
/// payload and its padding can be read back from it.
pub proof fn lemma_report_layout(prefix: Seq<u8>, pane: Seq<u8>)
    requires
        prefix.len() == BLOCK_START,
        pane.len() == PANE_LEN,
    ensures
        report(prefix, pane).len() == PACKET_LEN,
        report(prefix, pane).subrange(0, BLOCK_START as int) == prefix,
        report(prefix, pane).subrange(BLOCK_START as int, BLOCK_END as int) == pane,
        report(prefix, pane).subrange(BLOCK_END as int, PACKET_LEN as int) == padding(),
{
    let whole = report(prefix, pane);
    assert(whole.subrange(0, BLOCK_START as int) =~= prefix);
    assert(whole.subrange(BLOCK_START as int, BLOCK_END as int) =~= pane);
    assert(whole.subrange(BLOCK_END as int, PACKET_LEN as int) =~= padding());
}

/// The wire form loses nothing: two payloads with the same reports are the
/// same payload.
pub proof fn lemma_wire_form_is_lossless(packets: AnimePacketType, a: Seq<u8>, b: Seq<u8>)
    requires
        a.len() == ANIME_DATA_LEN,
        b.len() == ANIME_DATA_LEN,
        encodes(packets, a),
        encodes(packets, b),
    ensures
        a == b,
{
    lemma_report_layout(USB_PREFIX1@, pane(a, 0));
    lemma_report_layout(USB_PREFIX1@, pane(b, 0));
    lemma_report_layout(USB_PREFIX2@, pane(a, 1));
    lemma_report_layout(USB_PREFIX2@, pane(b, 1));
    assert(pane(a, 0) == pane(b, 0));
    assert(pane(a, 1) == pane(b, 1));
    assert forall|i: int| 0 <= i < a.len() implies a[i] == b[i] by {
        if i < PANE_LEN {
            assert(a[i] == pane(a, 0)[i]);
            assert(b[i] == pane(b, 0)[i]);
        } else {
            assert(a[i] == pane(a, 1)[i - PANE_LEN]);
            assert(b[i] == pane(b, 1)[i - PANE_LEN]);
        }
    }
    assert(a =~= b);
}

/// Lays one half of a payload out as a report.
fn fill_report(
    prefix: &[u8; BLOCK_START],
    data: &[u8; ANIME_DATA_LEN],
    index: usize,
) -> (packet: [u8; PACKET_LEN])
    requires
        index < 2,
    ensures
        packet@ == report(prefix@, pane(data@, index as int)),
{
    let mut packet = [0u8; PACKET_LEN];
    let start: usize = index * PANE_LEN;
    let mut n: usize = 0;
    while n < BLOCK_START
        invariant
            n <= BLOCK_START,
            forall|i: int| 0 <= i < n ==> packet@[i] == prefix@[i],
            forall|i: int| n <= i < PACKET_LEN ==> packet@[i] == 0u8,
        decreases BLOCK_START - n,
    {
        packet[n] = prefix[n];
        n = n + 1;
    }
    let mut n: usize = 0;
    while n < PANE_LEN
        invariant
            n <= PANE_LEN,
            start == index * PANE_LEN,
            index < 2,
            forall|i: int| 0 <= i < BLOCK_START ==> packet@[i] == prefix@[i],
            forall|i: int|
                BLOCK_START <= i < BLOCK_START + n ==> packet@[i] == data@[start + i - BLOCK_START],
            forall|i: int| BLOCK_START + n <= i < PACKET_LEN ==> packet@[i] == 0u8,
        decreases PANE_LEN - n,
    {
        packet[BLOCK_START + n] = data[start + n];
        n = n + 1;
    }
    assert(packet@ =~= report(prefix@, pane(data@, index as int)));
    packet
}

impl From<AnimeDataBuffer> for AnimePacketType {
    /// Splits the payload into its two reports.
    ///
    /// Each report starts with its header and ends in zeros, whatever the
    /// payload holds; between them the first report carries the first half
    /// of the payload and the second report the second half, byte for byte.
    fn from(anime: AnimeDataBuffer) -> (packets: Self)
        ensures
            encodes(packets, anime@),
            packets[0]@.subrange(0, BLOCK_START as int) == USB_PREFIX1@,
            packets[1]@.subrange(0, BLOCK_START as int) == USB_PREFIX2@,
            packets[0]@.subrange(BLOCK_END as int, PACKET_LEN as int) == padding(),
            packets[1]@.subrange(BLOCK_END as int, PACKET_LEN as int) == padding(),
            packets[0]@.subrange(BLOCK_START as int, BLOCK_END as int) == anime@.subrange(
                0,
                PANE_LEN as int,
            ),
            packets[1]@.subrange(BLOCK_START as int, BLOCK_END as int) == anime@.subrange(
                PANE_LEN as int,
                ANIME_DATA_LEN as int,
            ),
    {
        let first = fill_report(&USB_PREFIX1, &anime.0, 0);
        let second = fill_report(&USB_PREFIX2, &anime.0, 1);
        let packets = [first, second];
        proof {
            let chosen = wire_form(anime@);
            assert(encodes(packets, anime@));
            assert(encodes(chosen, anime@));
            assert(packets[0] =~= chosen[0]);
            assert(packets[1] =~= chosen[1]);
            assert(packets =~= chosen);
            lemma_report_layout(USB_PREFIX1@, pane(anime@, 0));
            lemma_report_layout(USB_PREFIX2@, pane(anime@, 1));
        }
        packets
    }
}

impl vstd::std_specs::convert::FromSpecImpl<AnimeDataBuffer> for AnimePacketType {
    open spec fn obeys_from_spec() -> bool {
        true
    }

    open spec fn from_spec(anime: AnimeDataBuffer) -> AnimePacketType {
        wire_form(anime@)
    }
}

} // verus!
