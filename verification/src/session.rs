use vstd::prelude::*;

use crate::exchange::ExchangeUnit;
use crate::exchange::word_of;
use crate::params::MultibootParameter;
use crate::params::handshake_spec;

verus! {

// The failure codes of the handshake.  Each is a 16-bit value whose low
// 15 bits form three 5-bit sub-fields, a position indicator for visual
// diagnosis on the device; callers rely on them bit-exactly.
pub const ERR_PAYLOAD_SIZE: u16 = 0b0_00111_00111_00111;
pub const ERR_NO_LINK: u16 = 0b0_00000_00000_11111;
pub const ERR_NOT_PARENT: u16 = 0b0_11111_00000_00111;
pub const ERR_NO_RESPONSE: u16 = 0b0_00111_00000_11111;
pub const ERR_NO_CLIENTS: u16 = 0b0_00000_00111_00111;
pub const ERR_HEADER_MISMATCH: u16 = 0b0_00000_11111_11111;
pub const ERR_NO_PALETTE: u16 = 0b0_01111_01111_11111;
pub const ERR_SYSCALL_FAILED: u16 = 0b0_11111_11111_11111;

/// Length of the cartridge header that opens the payload and is
/// streamed word by word to the clients.
pub const CARTRIDGE_HEADER_LENGTH: usize = 0xC0;

/// The serial-control configuration written at link setup: 115200 baud,
/// multi-player mode.
pub const SIO_MULTIPLAYER_CONFIG: u16 = 0x2103;

/// Serial-control bit: start (and, while set, busy).
pub const SIO_START_BUSY: u16 = 0x0080;

/// Serial-control bit: a link cable is detected (SD).
pub const SIO_LINK_PRESENT: u16 = 0x0008;

/// Serial-control bit: low bit of the ID field; clear on the master.
pub const SIO_ID_LOW: u16 = 0x0004;

/// A payload may be uploaded iff its length is a multiple of 16, at
/// least 0x1C0 bytes (0x100 of image beyond the 0xC0-byte cartridge
/// header), and at most 0x3FFFF bytes.
pub open spec fn payload_size_ok(len: int) -> bool {
    &&& len % 16 == 0
    &&& 0x1C0 <= len
    &&& len <= 0x3FFFF
}

/// The mask bit of client slot `j`: `0x02 << j`.
pub open spec fn slot_mask(j: int) -> u8 {
    if j == 0 {
        0x02
    } else if j == 1 {
        0x04
    } else {
        0x08
    }
}

/// The mask bit slot `j` contributes to the client-bit field: its mask
/// bit if its discovery command byte was 0x72, nothing otherwise.
pub open spec fn slot_bit(r: [ExchangeUnit; 3], j: int) -> u8 {
    if r[j].command == 0x72 {
        slot_mask(j)
    } else {
        0
    }
}

/// The client-bit field a discovery response registers: the mask bits
/// of the slots whose command byte was 0x72.
pub open spec fn client_bits(r: [ExchangeUnit; 3]) -> u8 {
    (slot_bit(r, 0) + slot_bit(r, 1) + slot_bit(r, 2)) as u8
}

/// The client-bit field of a present-flag triple.
pub open spec fn flags_mask(present: [bool; 3]) -> u8 {
    ((if present[0] { 0x02int } else { 0 }) + (if present[1] { 0x04int } else { 0 }) + (
    if present[2] {
        0x08int
    } else {
        0
    })) as u8
}

/// A discovery answer from slot `j` is acceptable iff the slot looks
/// absent (command 0xFF) or announces itself (command 0x72 with the
/// slot's own mask bit as data).
pub open spec fn discovery_slot_ok(u: ExchangeUnit, j: int) -> bool {
    u.command == 0xFF || (u.command == 0x72 && u.data == slot_mask(j))
}

/// A discovery response is acceptable iff every slot's answer is.
pub open spec fn discovery_ok(r: [ExchangeUnit; 3]) -> bool {
    &&& discovery_slot_ok(r[0], 0)
    &&& discovery_slot_ok(r[1], 1)
    &&& discovery_slot_ok(r[2], 2)
}

/// Some slot announced itself with command 0x72.
pub open spec fn discovery_found_client(r: [ExchangeUnit; 3]) -> bool {
    r[0].command == 0x72 || r[1].command == 0x72 || r[2].command == 0x72
}

/// The command byte every present client must echo for the header word
/// at byte index `i`: the count of words still to come, `(0xC0 - i) / 2`.
pub open spec fn expected_command(i: int) -> u8 {
    ((0xC0 - i) / 2) as u8
}

/// A header answer from slot `j` is acceptable iff a present client
/// echoes the remaining-word count with its mask bit, and an absent slot
/// reads as the all-ones word 0xFFFF.
pub open spec fn header_slot_ok(u: ExchangeUnit, present: bool, expected: u8, j: int) -> bool {
    if present {
        u.command == expected && u.data == slot_mask(j)
    } else {
        u.command == 0xFF && u.data == 0xFF
    }
}

/// A header response is acceptable iff every slot's answer is.
pub open spec fn header_ok(r: [ExchangeUnit; 3], present: [bool; 3], expected: u8) -> bool {
    &&& header_slot_ok(r[0], present[0], expected, 0)
    &&& header_slot_ok(r[1], present[1], expected, 1)
    &&& header_slot_ok(r[2], present[2], expected, 2)
}

/// A palette answer is acceptable iff the slot looks absent (command
/// 0xFF) or acknowledges the palette (command 0x73).  The data byte is
/// not filtered: it is the client's random handshake contribution.
pub open spec fn palette_slot_ok(u: ExchangeUnit) -> bool {
    u.command == 0xFF || u.command == 0x73
}

/// A palette response is acceptable iff every slot's answer is.
pub open spec fn palette_ok(r: [ExchangeUnit; 3]) -> bool {
    &&& palette_slot_ok(r[0])
    &&& palette_slot_ok(r[1])
    &&& palette_slot_ok(r[2])
}

/// Where the handshake stands.  Every phase that awaits a response names
/// the exchange whose answer it is waiting for.
#[derive(Clone, Copy, PartialEq, Eq, Structural)]
pub enum Phase {
    /// Waiting for the serial-control read-back after link setup.
    LinkInit,
    /// The unconditional priming 0x6200 is out; its answer is discarded.
    Priming,
    /// A discovery 0x6200 is out; `tries_used` of the 15 loop attempts
    /// have been spent.
    Discovery { tries_used: u8 },
    /// The 0x61 registration word is out; its answer is discarded.
    Registration,
    /// The header word at payload byte `index` is out.
    Header { index: usize },
    /// The first closing 0x6200 is out; its answer is discarded.
    ConcludeFirst,
    /// The closing 0x62 word is out; its answer is discarded.
    ConcludeSecond,
    /// A palette 0x63 word is out; `tries_used` of the 15 loop attempts
    /// have been spent.
    Palette { tries_used: u8 },
    /// The 0x64 handshake word is out; its answer is discarded.
    Handshake,
    /// All exchanges are done; the firmware call is due.
    Firmware,
    /// The firmware accepted the boot.
    Complete,
    /// The attempt failed.
    Failed,
}

/// What the machine asks of its caller next.
#[derive(Clone, Copy, PartialEq, Eq, Structural)]
pub enum Step {
    /// Perform one serial exchange with this word and feed the three
    /// slot answers back through `on_response`.
    Send(u16),
    /// Invoke the firmware's multiboot service with the parameter block
    /// and feed its verdict back through `on_firmware`.
    Boot,
    /// The upload is under way; the attempt succeeded.
    Done,
    /// The attempt failed with this code.
    Fail(u16),
}

/// The handshake state machine.  It is driven step by step: the caller
/// performs each exchange (or the firmware call) the returned `Step`
/// asks for and feeds the outcome back in.
pub struct MultibootSession {
    pub phase: Phase,
    /// The parameter block being assembled for the firmware call.
    pub params: MultibootParameter,
    /// Which client slots registered during discovery.
    pub clients_present: [bool; 3],
    /// The palette byte sent during palette negotiation.
    pub palette_data: u8,
    /// The payload image this session streams; the caller hands the same
    /// payload to every `on_response` call.
    pub image: Ghost<Seq<u8>>,
}

impl MultibootSession {
    /// Phases whose pending exchange awaits a response.
    pub open spec fn expects_response(self) -> bool {
        match self.phase {
            Phase::Priming => true,
            Phase::Discovery { .. } => true,
            Phase::Registration => true,
            Phase::Header { .. } => true,
            Phase::ConcludeFirst => true,
            Phase::ConcludeSecond => true,
            Phase::Palette { .. } => true,
            Phase::Handshake => true,
            _ => false,
        }
    }

    /// Phases at or past client registration.
    pub open spec fn registered(self) -> bool {
        match self.phase {
            Phase::Registration => true,
            Phase::Header { .. } => true,
            Phase::ConcludeFirst => true,
            Phase::ConcludeSecond => true,
            Phase::Palette { .. } => true,
            Phase::Handshake => true,
            Phase::Firmware => true,
            Phase::Complete => true,
            _ => false,
        }
    }

    /// Well-formedness, preserved by every step: the payload passed the
    /// size gate; retry counters stay inside their budget of 15; the
    /// header index walks the cartridge header word by word; once
    /// clients are registered the client-bit field matches the present
    /// flags and names at least one client; and once the handshake word
    /// is out, the handshake byte is the checksum of the client data.
    pub open spec fn wf(self) -> bool {
        &&& payload_size_ok(self.image@.len() as int)
        &&& match self.phase {
            Phase::Discovery { tries_used } => 1 <= tries_used <= 15,
            Phase::Palette { tries_used } => 1 <= tries_used <= 15,
            Phase::Header { index } => index % 2 == 0 && index < CARTRIDGE_HEADER_LENGTH,
            _ => true,
        }
        &&& self.registered() ==> {
            &&& self.params.client_bit == flags_mask(self.clients_present)
            &&& self.params.client_bit != 0
        }
        &&& (self.phase == Phase::Handshake || self.phase == Phase::Firmware || self.phase
            == Phase::Complete) ==> self.params.handshake_data == handshake_spec(
            self.params.client_data[0],
            self.params.client_data[1],
            self.params.client_data[2],
        )
    }

    /// The wire word for the header word at payload byte `i`: the
    /// little-endian 16-bit word `(payload[i+1] << 8) | payload[i]`.
    pub open spec fn header_word(self, i: int) -> u16 {
        word_of(self.image@[i + 1], self.image@[i])
    }
}

/// The session a fresh attempt on `payload` starts from, before the
/// serial-control read-back has been consumed.
pub open spec fn init_session(
    payload: Seq<u8>,
    palette_data: u8,
    boot_base: usize,
) -> MultibootSession {
    MultibootSession {
        phase: Phase::LinkInit,
        params: MultibootParameter {
            handshake_data: 0,
            client_data: [0xffu8, 0xff, 0xff],
            palette_data,
            client_bit: 0,
            boot_srcp: (boot_base + CARTRIDGE_HEADER_LENGTH) as usize,
            boot_endp: (boot_base + payload.len()) as usize,
        },
        clients_present: [false, false, false],
        palette_data,
        image: Ghost(payload),
    }
}

/// The step taken on the serial-control read-back after link setup: fail
/// without a link cable (SD clear) or as a non-master (ID low bit set),
/// else emit the priming 0x6200.
pub open spec fn control_next(pre: MultibootSession, siocnt: u16) -> (MultibootSession, Step) {
    if siocnt & SIO_LINK_PRESENT == 0 {
        (MultibootSession { phase: Phase::Failed, ..pre }, Step::Fail(ERR_NO_LINK))
    } else if siocnt & SIO_ID_LOW != 0 {
        (MultibootSession { phase: Phase::Failed, ..pre }, Step::Fail(ERR_NOT_PARENT))
    } else {
        (MultibootSession { phase: Phase::Priming, ..pre }, Step::Send(0x6200))
    }
}

/// The step taken on the response to the pending exchange: the machine's
/// transition function, one arm per phase.
pub open spec fn next(pre: MultibootSession, resp: [ExchangeUnit; 3]) -> (MultibootSession, Step) {
    match pre.phase {
        Phase::Priming => {
            // The priming answer is discarded; the first discovery
            // attempt goes out.
            (
                MultibootSession { phase: Phase::Discovery { tries_used: 1 }, ..pre },
                Step::Send(0x6200),
            )
        },
        Phase::Discovery { tries_used } => {
            if discovery_ok(resp) && discovery_found_client(resp) {
                // Register the clients and send 0x61 with the mask.
                (
                    MultibootSession {
                        phase: Phase::Registration,
                        clients_present: [
                            resp[0].command == 0x72,
                            resp[1].command == 0x72,
                            resp[2].command == 0x72,
                        ],
                        params: MultibootParameter { client_bit: client_bits(resp), ..pre.params },
                        ..pre
                    },
                    Step::Send(word_of(0x61, client_bits(resp))),
                )
            } else if tries_used < 15 {
                // Unacceptable, or acceptable with every slot absent:
                // retry.  An all-absent response never ends the loop.
                (
                    MultibootSession {
                        phase: Phase::Discovery { tries_used: (tries_used + 1) as u8 },
                        ..pre
                    },
                    Step::Send(0x6200),
                )
            } else {
                (MultibootSession { phase: Phase::Failed, ..pre }, Step::Fail(ERR_NO_RESPONSE))
            }
        },
        Phase::Registration => {
            // The registration answer is discarded; header streaming
            // begins with the word at byte 0.
            (
                MultibootSession { phase: Phase::Header { index: 0 }, ..pre },
                Step::Send(pre.header_word(0)),
            )
        },
        Phase::Header { index } => {
            if header_ok(resp, pre.clients_present, expected_command(index as int)) {
                if index + 2 < CARTRIDGE_HEADER_LENGTH {
                    (
                        MultibootSession {
                            phase: Phase::Header { index: (index + 2) as usize },
                            ..pre
                        },
                        Step::Send(pre.header_word(index + 2)),
                    )
                } else {
                    (MultibootSession { phase: Phase::ConcludeFirst, ..pre }, Step::Send(0x6200))
                }
            } else {
                // A single mismatch is fatal; there is no retry here.
                (MultibootSession { phase: Phase::Failed, ..pre }, Step::Fail(ERR_HEADER_MISMATCH))
            }
        },
        Phase::ConcludeFirst => {
            (
                MultibootSession { phase: Phase::ConcludeSecond, ..pre },
                Step::Send(word_of(0x62, pre.params.client_bit)),
            )
        },
        Phase::ConcludeSecond => {
            (
                MultibootSession { phase: Phase::Palette { tries_used: 1 }, ..pre },
                Step::Send(word_of(0x63, pre.palette_data)),
            )
        },
        Phase::Palette { tries_used } => {
            if palette_ok(resp) {
                // Keep each slot's data byte (absent slots answer with
                // the all-ones word, so they contribute 0xFF), compute
                // the handshake byte, and send it under command 0x64.
                (
                    MultibootSession {
                        phase: Phase::Handshake,
                        params: MultibootParameter {
                            client_data: [resp[0].data, resp[1].data, resp[2].data],
                            handshake_data: handshake_spec(resp[0].data, resp[1].data, resp[2].data),
                            ..pre.params
                        },
                        ..pre
                    },
                    Step::Send(
                        word_of(0x64, handshake_spec(resp[0].data, resp[1].data, resp[2].data)),
                    ),
                )
            } else if tries_used < 15 {
                (
                    MultibootSession {
                        phase: Phase::Palette { tries_used: (tries_used + 1) as u8 },
                        ..pre
                    },
                    Step::Send(word_of(0x63, pre.palette_data)),
                )
            } else {
                (MultibootSession { phase: Phase::Failed, ..pre }, Step::Fail(ERR_NO_PALETTE))
            }
        },
        Phase::Handshake => {
            // The handshake answer is discarded; the parameter block is
            // complete and the firmware call is due.
            (MultibootSession { phase: Phase::Firmware, ..pre }, Step::Boot)
        },
        // No exchange is pending in the remaining phases; `on_response`
        // excludes them.
        _ => (pre, Step::Fail(0)),
    }
}

/// The step taken on the firmware's verdict.
pub open spec fn firmware_next(pre: MultibootSession, success: bool) -> (MultibootSession, Step) {
    if success {
        (MultibootSession { phase: Phase::Complete, ..pre }, Step::Done)
    } else {
        (MultibootSession { phase: Phase::Failed, ..pre }, Step::Fail(ERR_SYSCALL_FAILED))
    }
}

impl MultibootSession {
    /// Opens a multiboot attempt on `payload` (the complete image,
    /// cartridge header included, that sits at host address `boot_base`).
    /// Rejects with the bad-payload-size code, before any hardware is
    /// touched, exactly when the length fails the size gate; otherwise
    /// the returned machine waits for link setup: clear the
    /// reception-control register, write `SIO_MULTIPLAYER_CONFIG` to the
    /// serial-control register, read that register back and hand it to
    /// `on_control`.
    pub fn new(payload: &Vec<u8>, palette_data: u8, boot_base: usize) -> (r: Result<
        MultibootSession,
        u16,
    >)
        requires
            boot_base + payload@.len() <= usize::MAX,
        ensures
            (r matches Ok(_)) <==> payload_size_ok(payload@.len() as int),
            (r matches Err(e) ==> e == ERR_PAYLOAD_SIZE),
            (r matches Ok(s) ==> {
                &&& s.wf()
                &&& s == init_session(payload@, palette_data, boot_base)
                &&& s.phase == Phase::LinkInit
                &&& s.image@ == payload@
                &&& s.palette_data == palette_data
                &&& s.clients_present == [false, false, false]
                &&& s.params.handshake_data == 0
                &&& s.params.client_data == [0xffu8, 0xff, 0xff]
                &&& s.params.palette_data == palette_data
                &&& s.params.client_bit == 0
                &&& s.params.boot_srcp == boot_base + CARTRIDGE_HEADER_LENGTH
                &&& s.params.boot_endp == boot_base + payload@.len()
            }),
    {
        let payload_length = payload.len();
        if payload_length % 0x10 != 0 || payload_length < 0x100 + CARTRIDGE_HEADER_LENGTH
            || payload_length > 0x3FFFF {
            return Err(ERR_PAYLOAD_SIZE);
        }
        let mut params = MultibootParameter::default();
        params.palette_data = palette_data;
        params.boot_srcp = boot_base + CARTRIDGE_HEADER_LENGTH;
        params.boot_endp = boot_base + payload_length;
        Ok(
            MultibootSession {
                phase: Phase::LinkInit,
                params,
                clients_present: [false, false, false],
                palette_data,
                image: Ghost(payload@),
            },
        )
    }

    /// Consumes the serial-control read-back after link setup.
    pub fn on_control(&mut self, siocnt: u16) -> (step: Step)
        requires
            old(self).wf(),
            old(self).phase == Phase::LinkInit,
        ensures
            final(self).wf(),
            *final(self) == control_next(*old(self), siocnt).0,
            step == control_next(*old(self), siocnt).1,
    {
        if siocnt & SIO_LINK_PRESENT == 0 {
            self.phase = Phase::Failed;
            return Step::Fail(ERR_NO_LINK);
        }
        if siocnt & SIO_ID_LOW != 0 {
            self.phase = Phase::Failed;
            return Step::Fail(ERR_NOT_PARENT);
        }
        self.phase = Phase::Priming;
        Step::Send(0x6200)
    }

    /// Consumes the three slot answers to the pending exchange and takes
    /// one transition of the machine.  `payload` is the same image the
    /// session was opened on.
    pub fn on_response(&mut self, resp: [ExchangeUnit; 3], payload: &Vec<u8>) -> (step: Step)
        requires
            old(self).wf(),
            old(self).expects_response(),
            payload@ == old(self).image@,
        ensures
            final(self).wf(),
            *final(self) == next(*old(self), resp).0,
            step == next(*old(self), resp).1,
    {
        match self.phase {
            Phase::Priming => {
                self.phase = Phase::Discovery { tries_used: 1 };
                Step::Send(0x6200)
            },
            Phase::Discovery { tries_used } => {
                let ok = (resp[0].command == 0xFF || (resp[0].command == 0x72 && resp[0].data
                    == 0x02)) && (resp[1].command == 0xFF || (resp[1].command == 0x72 && resp[1].data
                    == 0x04)) && (resp[2].command == 0xFF || (resp[2].command == 0x72 && resp[2].data
                    == 0x08));
                let found = resp[0].command == 0x72 || resp[1].command == 0x72 || resp[2].command
                    == 0x72;
                if ok && found {
                    self.clients_present = [
                        resp[0].command == 0x72,
                        resp[1].command == 0x72,
                        resp[2].command == 0x72,
                    ];
                    let bits: u8 = (if resp[0].command == 0x72 {
                        0x02
                    } else {
                        0
                    }) + (if resp[1].command == 0x72 {
                        0x04
                    } else {
                        0
                    }) + (if resp[2].command == 0x72 {
                        0x08
                    } else {
                        0
                    });
                    self.params.client_bit = bits;
                    if bits == 0 {
                        // Defensive "no clients" check, kept from the
                        // protocol's statement; unreachable, since a
                        // client was just found.
                        assert(false);
                        self.phase = Phase::Failed;
                        return Step::Fail(ERR_NO_CLIENTS);
                    }
                    self.phase = Phase::Registration;
                    Step::Send(ExchangeUnit::new(0x61, bits).to_word())
                } else if tries_used < 15 {
                    self.phase = Phase::Discovery { tries_used: tries_used + 1 };
                    Step::Send(0x6200)
                } else {
                    self.phase = Phase::Failed;
                    Step::Fail(ERR_NO_RESPONSE)
                }
            },
            Phase::Registration => {
                let command = payload[1];
                let data = payload[0];
                self.phase = Phase::Header { index: 0 };
                Step::Send(ExchangeUnit::new(command, data).to_word())
            },
            Phase::Header { index } => {
                let expected: u8 = ((CARTRIDGE_HEADER_LENGTH - index) / 2) as u8;
                let ok0 = if self.clients_present[0] {
                    resp[0].command == expected && resp[0].data == 0x02
                } else {
                    resp[0].command == 0xFF && resp[0].data == 0xFF
                };
                let ok1 = if self.clients_present[1] {
                    resp[1].command == expected && resp[1].data == 0x04
                } else {
                    resp[1].command == 0xFF && resp[1].data == 0xFF
                };
                let ok2 = if self.clients_present[2] {
                    resp[2].command == expected && resp[2].data == 0x08
                } else {
                    resp[2].command == 0xFF && resp[2].data == 0xFF
                };
                if !(ok0 && ok1 && ok2) {
                    self.phase = Phase::Failed;
                    return Step::Fail(ERR_HEADER_MISMATCH);
                }
                if index + 2 < CARTRIDGE_HEADER_LENGTH {
                    let command = payload[index + 3];
                    let data = payload[index + 2];
                    self.phase = Phase::Header { index: index + 2 };
                    Step::Send(ExchangeUnit::new(command, data).to_word())
                } else {
                    self.phase = Phase::ConcludeFirst;
                    Step::Send(0x6200)
                }
            },
            Phase::ConcludeFirst => {
                self.phase = Phase::ConcludeSecond;
                Step::Send(ExchangeUnit::new(0x62, self.params.client_bit).to_word())
            },
            Phase::ConcludeSecond => {
                self.phase = Phase::Palette { tries_used: 1 };
                Step::Send(ExchangeUnit::new(0x63, self.palette_data).to_word())
            },
            Phase::Palette { tries_used } => {
                let ok = (resp[0].command == 0xFF || resp[0].command == 0x73) && (resp[1].command
                    == 0xFF || resp[1].command == 0x73) && (resp[2].command == 0xFF
                    || resp[2].command == 0x73);
                if ok {
                    self.params.client_data = [resp[0].data, resp[1].data, resp[2].data];
                    let handshake = crate::params::handshake_of(
                        resp[0].data,
                        resp[1].data,
                        resp[2].data,
                    );
                    self.params.handshake_data = handshake;
                    self.phase = Phase::Handshake;
                    Step::Send(ExchangeUnit::new(0x64, handshake).to_word())
                } else if tries_used < 15 {
                    self.phase = Phase::Palette { tries_used: tries_used + 1 };
                    Step::Send(ExchangeUnit::new(0x63, self.palette_data).to_word())
                } else {
                    self.phase = Phase::Failed;
                    Step::Fail(ERR_NO_PALETTE)
                }
            },
            Phase::Handshake => {
                self.phase = Phase::Firmware;
                Step::Boot
            },
            _ => {
                // Excluded by `expects_response`.
                Step::Fail(0)
            },
        }
    }

    /// Consumes the firmware's verdict on the multiboot call.
    pub fn on_firmware(&mut self, success: bool) -> (step: Step)
        requires
            old(self).wf(),
            old(self).phase == Phase::Firmware,
        ensures
            final(self).wf(),
            *final(self) == firmware_next(*old(self), success).0,
            step == firmware_next(*old(self), success).1,
    {
        if success {
            self.phase = Phase::Complete;
            Step::Done
        } else {
            self.phase = Phase::Failed;
            Step::Fail(ERR_SYSCALL_FAILED)
        }
    }
}

proof fn lemma_sum_and_mask(b0: u8, b1: u8, b2: u8, j: u8)
    by (bit_vector)
    requires
        b0 == 0 || b0 == 2,
        b1 == 0 || b1 == 4,
        b2 == 0 || b2 == 8,
        j < 3,
    ensures
        (((b0 + b1 + b2) as u8) & (0x02u8 << j) != 0) <==> (if j == 0 {
            b0 == 2
        } else if j == 1 {
            b1 == 4
        } else {
            b2 == 8
        }),
        (0x02u8 << j) == (if j == 0 {
            0x02u8
        } else if j == 1 {
            0x04u8
        } else {
            0x08u8
        }),
{
}

/// Client-bit discipline: in the client-bit field a discovery response
/// registers, the mask bit `0x02 << j` is set iff slot `j`'s command
/// byte was 0x72.
pub proof fn lemma_client_bit_discipline(resp: [ExchangeUnit; 3], j: u8)
    requires
        j < 3,
    ensures
        (client_bits(resp) & (0x02u8 << j) != 0) <==> resp[j as int].command == 0x72,
        slot_mask(j as int) == (0x02u8 << j),
{
    lemma_sum_and_mask(slot_bit(resp, 0), slot_bit(resp, 1), slot_bit(resp, 2), j);
}

/// Header count: the command every present client must echo for the
/// word at byte index `i` is the remaining-word count `(0xC0 - i) / 2`;
/// it is 0x60 for the first word, 0x01 for the last, and falls by one
/// from each word to the next.
pub proof fn lemma_header_count(i: int)
    requires
        0 <= i < 0xC0,
        i % 2 == 0,
    ensures
        expected_command(i) == (0xC0 - i) / 2,
        expected_command(0) == 0x60,
        expected_command(0xBE) == 0x01,
        i + 2 < 0xC0 ==> expected_command(i + 2) == expected_command(i) - 1,
{
}

/// What holds of the parameter block whenever the firmware call is due:
/// at least one client was detected, the client-bit field matches the
/// present flags, and the handshake byte is the checksum of the three
/// client data bytes.
pub proof fn lemma_firmware_block_invariant(s: MultibootSession)
    requires
        s.wf(),
        s.phase == Phase::Firmware,
    ensures
        s.params.client_bit != 0,
        s.params.client_bit == flags_mask(s.clients_present),
        s.params.handshake_data == handshake_spec(
            s.params.client_data[0],
            s.params.client_data[1],
            s.params.client_data[2],
        ),
{
}

/// Retry budget: a well-formed session never stands past the fifteenth
/// attempt of the discovery or palette loop, so either loop performs at
/// most 15 exchanges beyond the one priming exchange (16 in all), and
/// the fifteenth attempt's failure ends the loop: an answer that does
/// not conclude it then yields the no-response (or no-palette-response)
/// failure, not a sixteenth attempt.
pub proof fn lemma_retry_budget(s: MultibootSession, resp: [ExchangeUnit; 3])
    requires
        s.wf(),
    ensures
        (s.phase matches Phase::Discovery { tries_used } ==> tries_used <= 15),
        (s.phase matches Phase::Palette { tries_used } ==> tries_used <= 15),
        s.phase == (Phase::Discovery { tries_used: 15 }) && !(discovery_ok(resp)
            && discovery_found_client(resp)) ==> next(s, resp).1 == Step::Fail(ERR_NO_RESPONSE),
        s.phase == (Phase::Palette { tries_used: 15 }) && !palette_ok(resp) ==> next(s, resp).1
            == Step::Fail(ERR_NO_PALETTE),
{
}

} // verus!
