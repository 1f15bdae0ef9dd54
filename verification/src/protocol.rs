//! The packet scripts of the device operations, and the reports that carry
//! them. A script is the list of payloads that an operation sends, in order;
//! sending and receiving is left to the caller.

use vstd::prelude::*;
use crate::checksum::checksum_of;
use crate::color::OwnRGB8;
use crate::error::{CherryRgbError, DecodeError};
use crate::hexcodec::hex_encoded;
use crate::key_leds::{
    blank_table, chunk_payloads, lemma_table_chunks, payload_views, table_bytes, CustomKeyLeds,
    TOTAL_KEYS,
};
use crate::models::{Brightness, LightingMode, Payload, PayloadView, Speed};
use crate::packet::{lemma_packet_roundtrip_padded, Packet, PacketView};
use crate::wire::ToVec;

verus! {

/// Size of the report that carries one packet over USB.
pub const REPORT_SIZE: usize = 64;

/// `wire` brought to the size of a report: cut where it is longer, filled
/// with zero bytes where it is shorter.
pub open spec fn report_of(wire: Seq<u8>) -> Seq<u8> {
    Seq::new(REPORT_SIZE as nat, |i: int| if i < wire.len() { wire[i] } else { 0u8 })
}

/// The query that asks for `data_len` bytes of the keymap at `data_offset`.
pub open spec fn keymap_query(data_len: u8, data_offset: u16) -> PayloadView {
    PayloadView::GetKeymap { data_len, data_offset, padding: 0, keymap: Seq::empty() }
}

/// The query that asks for `data_len` bytes of the key indexes at `data_offset`.
pub open spec fn key_index_query(data_len: u8, data_offset: u16) -> PayloadView {
    PayloadView::GetKeyIndexes { data_len, data_offset, padding: 0, key_data: Seq::empty() }
}

/// Number of bytes that query `k` asks for where `total` bytes are read in
/// steps of 56: 56, or what is left for the last query.
pub open spec fn query_len(total: int, k: int) -> int {
    if 56 * k + 56 <= total {
        56
    } else {
        total - 56 * k
    }
}

/// The script that fetches the device state: inside one transaction, a query
/// of type 3, the keymap (378 bytes) in seven reads and the key indexes
/// (126 bytes) in three, each read at the offset where the one before ended.
pub open spec fn fetch_device_state_script() -> Seq<PayloadView> {
    seq![PayloadView::TransactionStart, PayloadView::Unknown3 { unk: 0x22 }] + Seq::new(
        7,
        |k: int| keymap_query(query_len(378, k) as u8, (56 * k) as u16),
    ) + Seq::new(3, |k: int| key_index_query(query_len(126, k) as u8, (56 * k) as u16)) + seq![
        PayloadView::TransactionEnd,
    ]
}

/// The payload that selects an animation with the caller's parameters.
pub open spec fn animation_payload(
    mode: LightingMode,
    brightness: Brightness,
    speed: Speed,
    color: OwnRGB8,
    rainbow: bool,
) -> PayloadView {
    PayloadView::SetAnimation {
        unknown: seq![0x09u8, 0x00u8, 0x00u8, 0x55u8, 0x00u8],
        mode,
        brightness,
        speed,
        pad: 0,
        rainbow: if rainbow {
            1u8
        } else {
            0u8
        },
        color,
    }
}

/// The payload that follows every animation payload: other leading bytes,
/// and zero in every other field.
pub open spec fn animation_companion() -> PayloadView {
    PayloadView::SetAnimation {
        unknown: seq![0x01u8, 0x18u8, 0x00u8, 0x55u8, 0x01u8],
        mode: LightingMode::Wave,
        brightness: Brightness::Off,
        speed: Speed::VeryFast,
        pad: 0,
        rainbow: 0,
        color: OwnRGB8::black(),
    }
}

/// The script that selects an animation: one transaction of the animation
/// payload and its companion.
pub open spec fn set_led_animation_script(
    mode: LightingMode,
    brightness: Brightness,
    speed: Speed,
    color: OwnRGB8,
    rainbow: bool,
) -> Seq<PayloadView> {
    seq![
        PayloadView::TransactionStart,
        animation_payload(mode, brightness, speed, color, rainbow),
        animation_companion(),
        PayloadView::TransactionEnd,
    ]
}

/// The script that switches the device to custom colours.
pub open spec fn custom_mode_script() -> Seq<PayloadView> {
    set_led_animation_script(
        LightingMode::Custom,
        Brightness::Full,
        Speed::Slow,
        OwnRGB8::black(),
        false,
    )
}

/// The script that sets the colour of every key: the transaction that
/// switches the device to custom colours, then a second transaction that
/// carries the chunks of the table in ascending order of offset.
pub open spec fn set_custom_colors_script(table: Seq<OwnRGB8>) -> Seq<PayloadView> {
    custom_mode_script() + seq![PayloadView::TransactionStart] + chunk_payloads(table_bytes(table))
        + seq![PayloadView::TransactionEnd]
}

/// The script that resets the custom colours: the script that sets every key
/// to black, then two queries of type 5 outside any transaction.
pub open spec fn reset_custom_colors_script() -> Seq<PayloadView> {
    set_custom_colors_script(blank_table()) + seq![
        PayloadView::Unknown5 { unk: 0x01 },
        PayloadView::Unknown5 { unk: 0x19 },
    ]
}

/// Whether a transaction is open after the first `sent` payloads of `script`
/// went out: the last start or end marker among them is a start.
pub open spec fn in_transaction_after(script: Seq<PayloadView>, sent: int) -> bool
    decreases sent,
{
    if sent <= 0 || sent > script.len() {
        false
    } else if script[sent - 1] is TransactionStart {
        true
    } else if script[sent - 1] is TransactionEnd {
        false
    } else {
        in_transaction_after(script, sent - 1)
    }
}

/// Whether `script` keeps the discipline of transactions: no start inside an
/// open transaction, no end outside one, and none left open at the end.
pub open spec fn is_well_bracketed(script: Seq<PayloadView>) -> bool {
    &&& forall|k: int|
        0 <= k < script.len() && (#[trigger] script[k]) is TransactionStart
            ==> !in_transaction_after(script, k)
    &&& forall|k: int|
        0 <= k < script.len() && (#[trigger] script[k]) is TransactionEnd ==> in_transaction_after(
            script,
            k,
        )
    &&& !in_transaction_after(script, script.len() as int)
}

fn keymap_read(data_len: u8, data_offset: u16) -> (payload: Payload)
    ensures
        payload@ == keymap_query(data_len, data_offset),
{
    Payload::GetKeymap { data_len, data_offset, padding: 0, keymap: Vec::new() }
}

fn key_index_read(data_len: u8, data_offset: u16) -> (payload: Payload)
    ensures
        payload@ == key_index_query(data_len, data_offset),
{
    Payload::GetKeyIndexes { data_len, data_offset, padding: 0, key_data: Vec::new() }
}

/// The payloads that fetch the device state, in the order to send them in.
/// The responses carry keymap and key index bytes that this library does not
/// interpret.
pub fn fetch_device_state() -> (script: Vec<Payload>)
    ensures
        payload_views(script@) == fetch_device_state_script(),
        is_well_bracketed(payload_views(script@)),
{
    let mut script: Vec<Payload> = Vec::new();
    script.push(Payload::TransactionStart);
    script.push(Payload::Unknown3 { unk: 0x22 });
    script.push(keymap_read(0x38, 0x00));
    script.push(keymap_read(0x38, 0x38));
    script.push(keymap_read(0x38, 0x70));
    script.push(keymap_read(0x38, 0xA8));
    script.push(keymap_read(0x38, 0xE0));
    script.push(keymap_read(0x38, 0x118));
    script.push(keymap_read(0x2A, 0x150));
    script.push(key_index_read(0x38, 0x00));
    script.push(key_index_read(0x38, 0x38));
    script.push(key_index_read(0x0E, 0x70));
    script.push(Payload::TransactionEnd);
    proof {
        assert(payload_views(script@) =~= fetch_device_state_script());
        lemma_fetch_device_state_bracketed();
    }
    script
}

/// The payloads that select an animation, in the order to send them in.
pub fn set_led_animation(
    mode: LightingMode,
    brightness: Brightness,
    speed: Speed,
    color: OwnRGB8,
    rainbow: bool,
) -> (script: Vec<Payload>)
    ensures
        payload_views(script@) == set_led_animation_script(mode, brightness, speed, color, rainbow),
        is_well_bracketed(payload_views(script@)),
{
    let mut script: Vec<Payload> = Vec::new();
    script.push(Payload::TransactionStart);
    let unknown: [u8; 5] = [0x09, 0x00, 0x00, 0x55, 0x00];
    assert(unknown@ =~= seq![0x09u8, 0x00u8, 0x00u8, 0x55u8, 0x00u8]);
    script.push(
        Payload::SetAnimation {
            unknown,
            mode,
            brightness,
            speed,
            pad: 0x0,
            rainbow: if rainbow {
                1
            } else {
                0
            },
            color,
        },
    );
    let unknown: [u8; 5] = [0x01, 0x18, 0x00, 0x55, 0x01];
    assert(unknown@ =~= seq![0x01u8, 0x18u8, 0x00u8, 0x55u8, 0x01u8]);
    script.push(
        Payload::SetAnimation {
            unknown,
            mode: LightingMode::Wave,
            brightness: Brightness::Off,
            speed: Speed::VeryFast,
            pad: 0x0,
            rainbow: 0x0,
            color: OwnRGB8 { r: 0, g: 0, b: 0 },
        },
    );
    script.push(Payload::TransactionEnd);
    proof {
        assert(payload_views(script@) =~= set_led_animation_script(
            mode,
            brightness,
            speed,
            color,
            rainbow,
        ));
        lemma_set_led_animation_bracketed(mode, brightness, speed, color, rainbow);
    }
    script
}

/// Moves the payloads of `more` behind those of `script`.
fn append_payloads(script: &mut Vec<Payload>, more: Vec<Payload>)
    ensures
        payload_views(final(script)@) == payload_views(old(script)@) + payload_views(more@),
{
    let ghost added = more@;
    let mut more = more;
    script.append(&mut more);
    assert(payload_views(script@) =~= payload_views(old(script)@) + payload_views(added));
}

/// The payloads that set the colour of every key, in the order to send them
/// in: first the transaction that switches the device to custom colours,
/// then a transaction of the chunks of the table.
pub fn set_custom_colors(key_leds: CustomKeyLeds) -> (script: Vec<Payload>)
    ensures
        payload_views(script@) == set_custom_colors_script(key_leds@),
        is_well_bracketed(payload_views(script@)),
{
    let ghost table = key_leds@;
    let chunks = key_leds.chunks();
    let mut script = set_led_animation(
        LightingMode::Custom,
        Brightness::Full,
        Speed::Slow,
        OwnRGB8 { r: 0, g: 0, b: 0 },
        false,
    );
    script.push(Payload::TransactionStart);
    assert(payload_views(script@) =~= custom_mode_script() + seq![PayloadView::TransactionStart]);
    append_payloads(&mut script, chunks);
    let ghost before_end = payload_views(script@);
    script.push(Payload::TransactionEnd);
    proof {
        assert(payload_views(script@) =~= before_end + seq![PayloadView::TransactionEnd]);
        lemma_set_custom_colors_shape(table);
    }
    script
}

/// The payloads that reset the custom colours, in the order to send them in.
pub fn reset_custom_colors() -> (script: Vec<Payload>)
    ensures
        payload_views(script@) == reset_custom_colors_script(),
        is_well_bracketed(payload_views(script@)),
{
    let mut script = set_custom_colors(CustomKeyLeds::new());
    let ghost colors = payload_views(script@);
    script.push(Payload::Unknown5 { unk: 0x01 });
    script.push(Payload::Unknown5 { unk: 0x19 });
    proof {
        assert(payload_views(script@) =~= colors + seq![
            PayloadView::Unknown5 { unk: 0x01 },
            PayloadView::Unknown5 { unk: 0x19 },
        ]);
        lemma_reset_custom_colors_bracketed();
    }
    script
}

/// What a response of the device holds.
#[derive(Debug, PartialEq, Eq)]
pub enum Response {
    /// A packet whose checksum is valid.
    Verified(Packet<Payload>),
    /// A packet whose checksum is not valid, with the error that says so.
    Corrupt { packet: Packet<Payload>, error: CherryRgbError },
    /// Bytes that are no packet.
    Malformed(DecodeError),
}

/// Builds the report that carries `payload`: the packet of the payload, with
/// its checksum, brought to `REPORT_SIZE` bytes.
pub fn encode_report(payload: &Payload) -> (report: Vec<u8>)
    ensures
        report@ == report_of(PacketView::new(payload@).wire()),
        report@.len() == REPORT_SIZE,
{
    let packet = Packet::new(payload.clone());
    let bytes = packet.to_vec();
    let mut report: Vec<u8> = Vec::new();
    let mut i: usize = 0;
    while i < REPORT_SIZE
        invariant
            i <= REPORT_SIZE,
            report@.len() == i,
            forall|j: int| 0 <= j < i ==> report@[j] == report_of(bytes@)[j],
        decreases REPORT_SIZE - i,
    {
        if i < bytes.len() {
            report.push(bytes[i]);
        } else {
            report.push(0x00);
        }
        i = i + 1;
    }
    assert(report@ =~= report_of(bytes@));
    assert(bytes@ =~= PacketView::new(payload@).wire());
    report
}

/// Decodes a response of the device and verifies its checksum.
pub fn inspect_response(response: &[u8]) -> (found: Response)
    ensures
        match found {
            Response::Verified(packet) => PacketView::decode(response@) == Ok::<
                PacketView,
                DecodeError,
            >(packet@) && packet@.checksum_is_valid(),
            Response::Corrupt { packet, error } => {
                &&& PacketView::decode(response@) == Ok::<PacketView, DecodeError>(packet@)
                &&& !packet@.checksum_is_valid()
                &&& error matches CherryRgbError::ChecksumError { expected, calculated, data }
                &&& expected == packet@.checksum
                &&& calculated == checksum_of(packet@.payload.payload_type(), packet@.payload.body())
                &&& data@ == hex_encoded(packet@.payload.body())
            },
            Response::Malformed(e) => PacketView::decode(response@) == Err::<
                PacketView,
                DecodeError,
            >(e),
        },
{
    match Packet::decode(response) {
        Ok(packet) => {
            match packet.verify_checksum() {
                Ok(()) => Response::Verified(packet),
                Err(error) => Response::Corrupt { packet, error },
            }
        },
        Err(e) => Response::Malformed(e),
    }
}

/// Tells whether the device is inside a transaction after the first `sent`
/// payloads of `script` went out. Where sending fails at that point, this
/// says whether the operation was given up in the middle of a transaction.
pub fn is_mid_transaction(script: &Vec<Payload>, sent: usize) -> (open: bool)
    ensures
        open == in_transaction_after(payload_views(script@), sent as int),
{
    if sent > script.len() {
        return false;
    }
    let ghost views = payload_views(script@);
    let mut k: usize = sent;
    while k > 0
        invariant
            k <= sent <= script@.len(),
            views == payload_views(script@),
            in_transaction_after(views, sent as int) == in_transaction_after(views, k as int),
        decreases k,
    {
        assert(views[k - 1] == script@[k - 1]@);
        match &script[k - 1] {
            Payload::TransactionStart => {
                return true;
            },
            Payload::TransactionEnd => {
                return false;
            },
            _ => {},
        }
        k = k - 1;
    }
    false
}

/// The report of a packet that fits into it decodes to the packet again,
/// where the payload is canonical and of a known type.
pub proof fn lemma_report_roundtrip(payload: PayloadView)
    requires
        payload.is_canonical(),
        !(payload is Unhandled),
        PacketView::new(payload).wire().len() <= REPORT_SIZE,
    ensures
        PacketView::decode(report_of(PacketView::new(payload).wire())) == Ok::<
            PacketView,
            DecodeError,
        >(PacketView::new(payload)),
{
    let wire = PacketView::new(payload).wire();
    let rest = Seq::new((REPORT_SIZE - wire.len()) as nat, |i: int| 0u8);
    assert(report_of(wire) =~= wire + rest);
    lemma_packet_roundtrip_padded(PacketView::new(payload), rest);
}

/// What became of the report that was sent last.
#[derive(Clone, Copy, Debug, PartialEq, Eq, Structural)]
pub enum Event {
    /// The report went out and a response came back.
    Delivered,
    /// Writing the report or reading the response failed.
    Failed,
}

/// What the caller of a transfer is to do next.
#[derive(Debug, PartialEq, Eq)]
pub enum Action {
    /// Send this report and read one response.
    Send(Vec<u8>),
    /// Every payload was delivered.
    Done,
    /// Give the operation up. `sent` payloads were delivered;
    /// `mid_transaction` says whether they left a transaction open, which
    /// nothing closes now.
    Abort { sent: usize, mid_transaction: bool },
}

/// An operation under way: its script, and how much of it was delivered.
/// Payloads go out one at a time and in order; the first failure ends the
/// operation.
#[derive(Debug)]
pub struct Transfer {
    script: Vec<Payload>,
    sent: usize,
}

/// The action that comes when `sent` payloads of `script` were delivered:
/// send the report of the next payload, or be done.
pub open spec fn is_next_action(script: Seq<PayloadView>, sent: int, action: Action) -> bool {
    if 0 <= sent < script.len() {
        action matches Action::Send(report) && report@ == report_of(
            PacketView::new(script[sent]).wire(),
        )
    } else {
        action is Done
    }
}

impl Transfer {
    #[verifier::type_invariant]
    spec fn sent_is_in_script(self) -> bool {
        self.sent <= self.script@.len()
    }

    /// The script of the operation.
    pub closed spec fn script(&self) -> Seq<PayloadView> {
        payload_views(self.script@)
    }

    /// Number of payloads that were delivered.
    pub closed spec fn delivered(&self) -> int {
        self.sent as int
    }

    fn next_action(&self) -> (action: Action)
        ensures
            is_next_action(self.script(), self.delivered(), action),
    {
        proof {
            use_type_invariant(self);
        }
        if self.sent < self.script.len() {
            assert(self.script()[self.sent as int] == self.script@[self.sent as int]@);
            Action::Send(encode_report(&self.script[self.sent]))
        } else {
            Action::Done
        }
    }

    /// Begins an operation: nothing is delivered, and the first action is to
    /// send the first payload of the script.
    pub fn begin(script: Vec<Payload>) -> (started: (Transfer, Action))
        ensures
            started.0.script() == payload_views(script@),
            started.0.delivered() == 0,
            is_next_action(payload_views(script@), 0, started.1),
    {
        let transfer = Transfer { script, sent: 0 };
        let action = transfer.next_action();
        (transfer, action)
    }

    /// Takes note of what became of the report that was sent last, and says
    /// what to do next. After a delivery the next payload is due, until the
    /// script is through. After a failure the operation is given up at once,
    /// with no attempt to close an open transaction.
    pub fn step(&mut self, event: Event) -> (action: Action)
        ensures
            final(self).script() == old(self).script(),
            0 <= old(self).delivered() <= old(self).script().len(),
            match event {
                Event::Delivered => {
                    &&& final(self).delivered() == (if old(self).delivered() < old(
                        self,
                    ).script().len() {
                        old(self).delivered() + 1
                    } else {
                        old(self).delivered()
                    })
                    &&& is_next_action(final(self).script(), final(self).delivered(), action)
                },
                Event::Failed => {
                    &&& final(self).delivered() == old(self).delivered()
                    &&& action == (Action::Abort {
                        sent: old(self).delivered() as usize,
                        mid_transaction: in_transaction_after(
                            old(self).script(),
                            old(self).delivered(),
                        ),
                    })
                },
            },
    {
        proof {
            use_type_invariant(&*self);
        }
        match event {
            Event::Delivered => {
                if self.sent < self.script.len() {
                    self.sent = self.sent + 1;
                }
                self.next_action()
            },
            Event::Failed => Action::Abort {
                sent: self.sent,
                mid_transaction: is_mid_transaction(&self.script, self.sent),
            },
        }
    }
}

/// The script that fetches the device state keeps the discipline of
/// transactions.
pub proof fn lemma_fetch_device_state_bracketed()
    ensures
        fetch_device_state_script().len() == 13,
        is_well_bracketed(fetch_device_state_script()),
{
    let script = fetch_device_state_script();
    assert(script.len() == 13);
    reveal_with_fuel(in_transaction_after, 14);
    assert(script[0] is TransactionStart);
    assert(script[12] is TransactionEnd);
    assert forall|k: int| 1 <= k < 12 implies !((#[trigger] script[k]) is TransactionStart) && !(
    script[k] is TransactionEnd) by {
        if k >= 9 {
            assert(script[k] == key_index_query(query_len(126, k - 9) as u8, (56 * (k - 9)) as u16));
        } else if k >= 2 {
            assert(script[k] == keymap_query(query_len(378, k - 2) as u8, (56 * (k - 2)) as u16));
        }
    }
    assert(in_transaction_after(script, 12));
}

/// The script that selects an animation keeps the discipline of transactions.
pub proof fn lemma_set_led_animation_bracketed(
    mode: LightingMode,
    brightness: Brightness,
    speed: Speed,
    color: OwnRGB8,
    rainbow: bool,
)
    ensures
        is_well_bracketed(set_led_animation_script(mode, brightness, speed, color, rainbow)),
{
    reveal_with_fuel(in_transaction_after, 5);
}

/// The script that sets the custom colours of a full table sends, in this
/// order: a transaction of the animation payload for custom colours and its
/// companion, then a transaction of the seven chunks of the table in
/// ascending order of offset. It keeps the discipline of transactions.
pub proof fn lemma_set_custom_colors_shape(table: Seq<OwnRGB8>)
    requires
        table.len() == TOTAL_KEYS,
    ensures
        ({
            let script = set_custom_colors_script(table);
            &&& script.len() == 13
            &&& script[0] is TransactionStart
            &&& script[1] == animation_payload(
                LightingMode::Custom,
                Brightness::Full,
                Speed::Slow,
                OwnRGB8::black(),
                false,
            )
            &&& script[2] == animation_companion()
            &&& script[3] is TransactionEnd
            &&& script[4] is TransactionStart
            &&& forall|k: int|
                0 <= k < 7 ==> #[trigger] script[5 + k] == (PayloadView::SetCustomLED {
                    data_offset: (56 * k) as u16,
                    padding: 0,
                    key_leds_data: table_bytes(table).subrange(56 * k, if k < 6 {
                        56 * k + 56
                    } else {
                        378
                    }),
                })
            &&& script[12] is TransactionEnd
            &&& is_well_bracketed(script)
        }),
{
    let script = set_custom_colors_script(table);
    lemma_table_chunks(table);
    let chunks = chunk_payloads(table_bytes(table));
    assert(script.len() == 13);
    assert forall|k: int| 0 <= k < 7 implies #[trigger] script[5 + k] == chunks[k] by {}
    assert forall|k: int| 5 <= k < 12 implies !((#[trigger] script[k]) is TransactionStart) && !(
    script[k] is TransactionEnd) by {
        assert(script[5 + (k - 5)] == chunks[k - 5]);
    }
    reveal_with_fuel(in_transaction_after, 14);
    assert(in_transaction_after(script, 12));
}

/// The script that resets the custom colours keeps the discipline of
/// transactions, and its last two payloads go out with no transaction open.
pub proof fn lemma_reset_custom_colors_bracketed()
    ensures
        reset_custom_colors_script().len() == 15,
        is_well_bracketed(reset_custom_colors_script()),
        !in_transaction_after(reset_custom_colors_script(), 13),
        !in_transaction_after(reset_custom_colors_script(), 14),
{
    let inner = set_custom_colors_script(blank_table());
    let script = reset_custom_colors_script();
    lemma_set_custom_colors_shape(blank_table());
    assert(script.len() == 15);
    assert forall|k: int| 0 <= k < 13 implies #[trigger] script[k] == inner[k] by {}
    assert forall|k: int| 5 <= k < 12 implies !((#[trigger] script[k]) is TransactionStart) && !(
    script[k] is TransactionEnd) by {
        assert(inner[5 + (k - 5)] is SetCustomLED);
    }
    reveal_with_fuel(in_transaction_after, 16);
    assert(in_transaction_after(script, 12));
    assert(!in_transaction_after(script, 13));
}

} // verus!
