//! NFC Forum Type 2 Tag emulation (NTAG216-like) on the ST25R3916.
//!
//! The chip's passive-target logic answers REQA/WUPA, anticollision and
//! SELECT by itself (PT memory holds UID/ATQA/SAK). Once activated we serve
//! the Type 2 command set: READ, FAST_READ, WRITE, GET_VERSION, READ_SIG,
//! HLTA. Everything else gets a NAK.
//!
//! Memory layout (4-byte pages): 0-1 UID/BCC, 2 lock, 3 capability
//! container `E1 10 6D 00` (NDEF, v1.0, 888 B user area), 4.. user memory
//! holding the NDEF TLV, then the NTAG216 config pages.
//!
//! The state machine (Off → Idle → Ready → Active → Halt) is driven by polling
//! the interrupt registers from [`T2tEmulator::update`].

use crate::bus::{BusEvent, Delay, I2cPort};
use crate::bytes::{be16_bytes, owned, splice};
use crate::st25r3916::{bus_result, cmd, irq, reg, Error, St25r3916, Step};
use crate::trace::{Run, Trace};
use vstd::prelude::*;

pub mod laws;
pub mod model;

use model::{Emu, Served, Tag};

verus! {

broadcast use crate::trace::extends_transitive;

/// NTAG216: 231 pages.
pub const PAGES: usize = 231;

pub const MEM_BYTES: usize = 924;

/// First and last user-memory page.
pub const USER_FIRST_PAGE: usize = 4;

pub const USER_LAST_PAGE: usize = 225;

pub const USER_BYTES: usize = 888;

pub const ACK: u8 = 0x0A;

pub const NAK: u8 = 0x00;

/// How often a stuck oscillator sends us back to Off before we stay there.
pub const RETRIES: u8 = 32;

// Operation control / NFCIP-1 passive target definition bits.
pub const OP_EN: u8 = 0x80;

pub const OP_RX_EN: u8 = 0x40;

pub const OP_TX_EN: u8 = 0x08;

pub const OP_WU: u8 = 0x04;

pub const D_AC_AP2P: u8 = 0x08;

pub const D_212_424_1R: u8 = 0x04;

pub const D_106_AC_A: u8 = 0x01;

pub const AUX_NO_CRC_RX: u8 = 0x80;

pub const MODE_TARGET_BITRATE_DETECT: u8 = 0xC8;

pub const MODE_TARGET_LISTEN_A: u8 = 0x88;

#[derive(Debug, Clone, Copy, PartialEq, Eq, Structural)]
pub enum State {
    /// No external field; chip in low-power sense.
    Off,
    /// Field present, waiting for the chip's automatic anticollision.
    Idle,
    /// Anticollision in progress.
    Ready,
    /// Selected; serving commands.
    Active,
    /// HLTA received; only WUPA wakes us.
    Halt,
}

#[derive(Debug, Clone, Copy, PartialEq, Eq, Structural)]
pub enum Event {
    /// Nothing to tell.
    Unchanged,
    /// A reader's field appeared.
    FieldOn,
    /// The field went away; `written` tells whether memory was modified
    /// during the session.
    FieldOff { written: bool },
    /// We were selected by a reader.
    Selected,
}

/// What follows a command.
#[derive(Debug, Clone, Copy, PartialEq, Eq, Structural)]
pub enum CmdResult {
    Stay,
    Halt,
    Drop,
}

/// Target mode begins: wake-up off, external field detector in automatic
/// mode (this is what wakes us while the chip sits in low-power Off), 7-byte
/// UID.
pub open spec fn target_steps() -> Seq<Step> {
    seq![
        Step::Command(cmd::STOP_ALL),
        Step::Modify { reg: reg::OP_CONTROL, clear: OP_WU, set: 0 },
        Step::Modify { reg: reg::OP_CONTROL, clear: 0x03, set: 0x03 },
        Step::Modify { reg: reg::AUX, clear: 0x30, set: 0x10 },
    ]
}

pub open spec fn listen_steps() -> Seq<Step> {
    seq![
        Step::Write(reg::MODE, MODE_TARGET_BITRATE_DETECT),
        // FDT correction 5, no AP2P / 212-424 auto response, NFC-A auto response on
        Step::Write(reg::NFCIP1_PASSIVE_TARGET, 0x50 | D_AC_AP2P | D_212_424_1R),
        Step::Write(reg::IRQ_MASK_TARGET, 0x00),
        // no GPT trigger, MRT step 512/fc; MRT ~100 us
        Step::Write(reg::TIMER_EMV_CONTROL, 0x08),
        Step::Write(reg::MASK_RX_TIMER, 4),
        // parity on, NFCIP-1 off
        Step::Modify { reg: reg::ISO14443A_NFC, clear: 0xE0, set: 0 },
        Step::Write(reg::ANT_TUNE_A, 0x00),
        Step::Write(reg::ANT_TUNE_B, 0xFF),
        Step::WriteB(reg::B_OVERSHOOT_CONF1, 0x00),
        Step::WriteB(reg::B_OVERSHOOT_CONF2, 0x00),
        Step::WriteB(reg::B_UNDERSHOOT_CONF1, 0x00),
        Step::WriteB(reg::B_UNDERSHOOT_CONF2, 0x00),
        Step::IrqMask(0),
        Step::Command(cmd::UNMASK_RECEIVE_DATA),
    ]
}

/// Receiver and automatic response on, bit rate detection.
pub open spec fn sense_steps() -> Seq<Step> {
    seq![
        Step::Command(cmd::STOP_ALL),
        Step::Modify { reg: reg::OP_CONTROL, clear: 0, set: OP_RX_EN },
        Step::Modify { reg: reg::NFCIP1_PASSIVE_TARGET, clear: D_106_AC_A, set: 0 },
        Step::Command(cmd::GO_TO_SENSE),
        Step::Modify { reg: reg::ISO14443A_NFC, clear: 0x20, set: 0 },
        Step::ClearIrq,
        Step::Modify { reg: reg::AUX, clear: 0, set: AUX_NO_CRC_RX },
        Step::Write(reg::MODE, MODE_TARGET_BITRATE_DETECT),
    ]
}

/// Stay in Ready mode (oscillator on) while waiting for a field; the fully
/// powered-down variant (en=0) does not report I_eon on this board.
pub open spec fn off_steps() -> Seq<Step> {
    seq![
        Step::Modify { reg: reg::OP_CONTROL, clear: OP_TX_EN, set: 0 },
        Step::Modify { reg: reg::OP_CONTROL, clear: 0, set: OP_EN | OP_RX_EN },
    ]
}

pub open spec fn ready_steps() -> Seq<Step> {
    seq![
        Step::Modify { reg: reg::AUX, clear: AUX_NO_CRC_RX, set: 0 },
        Step::Write(reg::BIT_RATE, 0x00),
        Step::Modify { reg: reg::OP_CONTROL, clear: OP_WU, set: 0 },
        Step::Write(reg::MODE, MODE_TARGET_LISTEN_A),
    ]
}

pub open spec fn halt_steps() -> Seq<Step> {
    seq![
        Step::Modify { reg: reg::NFCIP1_PASSIVE_TARGET, clear: D_106_AC_A, set: 0 },
        Step::Command(cmd::GO_TO_SLEEP),
        Step::Write(reg::MODE, MODE_TARGET_BITRATE_DETECT),
        Step::Modify { reg: reg::ISO14443A_NFC, clear: 0x20, set: 0 },
        Step::Command(cmd::UNMASK_RECEIVE_DATA),
    ]
}

/// An answer to a reader: bytes, and the number of bits (zero: whole bytes
/// with CRC).
pub struct Reply {
    pub data: Vec<u8>,
    pub bits: u8,
}

/// A reply as the model has it.
pub open spec fn reply_view(reply: Option<Reply>) -> Option<(Seq<u8>, u8)> {
    match reply {
        None => None,
        Some(r) => Some((r.data@, r.bits)),
    }
}

pub struct T2tEmulator {
    pub memory: [u8; MEM_BYTES],
    pub state: State,
    pub bitrate_106: bool,
    pub wakeup: bool,
    pub dirty: bool,
    /// Commands served since the last field-on.
    pub commands: u32,
    /// Last command byte seen (diagnostics).
    pub last_cmd: u8,
}

impl View for T2tEmulator {
    type V = Tag;

    open spec fn view(&self) -> Tag {
        Tag {
            memory: self.memory@,
            state: self.state,
            bitrate_106: self.bitrate_106,
            wakeup: self.wakeup,
            dirty: self.dirty,
            commands: self.commands,
            last_cmd: self.last_cmd,
        }
    }
}

/// Tag and chip together, as the model has them.
pub open spec fn emu(tag: Tag, chip: crate::st25r3916::model::Chip) -> Emu {
    Emu { tag, chip }
}

impl T2tEmulator {
    /// Empty tag with the given 7-byte UID.
    pub fn new(uid: [u8; 7]) -> (tag: Self)
        ensures
            tag@ == Tag::fresh(uid@),
            tag@.uid() == uid@,
    {
        let mut memory = [0u8; MEM_BYTES];
        // Pages 0-1: UID with cascade tag + BCCs.
        memory[0] = uid[0];
        memory[1] = uid[1];
        memory[2] = uid[2];
        memory[3] = 0x88 ^ uid[0] ^ uid[1] ^ uid[2];
        memory[4] = uid[3];
        memory[5] = uid[4];
        memory[6] = uid[5];
        memory[7] = uid[6];
        memory[8] = uid[3] ^ uid[4] ^ uid[5] ^ uid[6];
        // Page 2: internal + lock bytes (all unlocked).
        memory[9] = 0x48;
        // Page 3: capability container.
        memory[12] = 0xE1;
        memory[13] = 0x10;
        memory[14] = 0x6D;
        // Empty NDEF TLV.
        memory[16] = 0x03;
        memory[18] = 0xFE;
        // Config pages (226..230): MIRROR/AUTH0, ACCESS, PWD.
        memory[907] = 0xFF;
        memory[909] = 0x05;
        memory[912] = 0xFF;
        memory[913] = 0xFF;
        memory[914] = 0xFF;
        memory[915] = 0xFF;
        assert(memory@ =~= crate::t2t_emu::model::fresh_memory(uid@));
        let tag = T2tEmulator {
            memory,
            state: State::Off,
            bitrate_106: false,
            wakeup: false,
            dirty: false,
            commands: 0,
            last_cmd: 0,
        };
        assert(tag@.uid() =~= uid@);
        tag
    }

    pub fn uid(&self) -> (uid: [u8; 7])
        ensures
            uid@ == self@.uid(),
    {
        let m = &self.memory;
        let uid = [m[0], m[1], m[2], m[4], m[5], m[6], m[7]];
        assert(uid@ =~= self@.uid());
        uid
    }

    pub fn state(&self) -> (state: State)
        ensures
            state == self@.state,
    {
        self.state
    }

    /// Store an NDEF message as the (only) NDEF TLV in user memory.
    /// Returns `false` if it does not fit.
    pub fn set_ndef(&mut self, msg: &[u8]) -> (fits: bool)
        ensures
            fits == (crate::t2t_emu::model::ndef_tlv(msg@).len() <= USER_BYTES),
            final(self)@ == if fits {
                old(self)@.with_ndef(msg@)
            } else {
                old(self)@
            },
            fits ==> final(self)@.ndef() == Some(msg@),
    {
        if msg.len() > USER_BYTES {
            return false;
        }
        let mut area: Vec<u8> = Vec::new();
        area.push(0x03);
        if msg.len() < 0xFF {
            area.push(msg.len() as u8);
            assert(area@ =~= seq![0x03u8, msg@.len() as u8]);
        } else {
            area.push(0xFF);
            area.extend_from_slice(&be16_bytes(msg.len() as u16));
            assert(area@ =~= seq![0x03u8, 0xFFu8] + crate::bytes::be16(msg@.len() as u16));
        }
        area.extend_from_slice(msg);
        area.push(0xFE);
        let ghost t = crate::t2t_emu::model::ndef_tlv(msg@);
        assert(area@ =~= t);
        if area.len() > USER_BYTES {
            return false;
        }
        area.resize(USER_BYTES, 0);
        assert(area@ =~= t + Seq::new((USER_BYTES - t.len()) as nat, |_i: int| 0u8));
        splice(&mut self.memory, USER_FIRST_PAGE * 4, area.as_slice());
        proof {
            crate::t2t_emu::laws::stored_ndef_is_found(old(self)@, msg@);
        }
        true
    }

    /// The NDEF message currently in user memory (first NDEF TLV), if any.
    pub fn ndef(&self) -> (msg: Option<&[u8]>)
        ensures
            self@.ndef() == (match msg {
                Some(m) => Some(m@),
                None => None,
            }),
    {
        let user = vstd::slice::slice_subrange(
            self.memory.as_slice(),
            USER_FIRST_PAGE * 4,
            (USER_LAST_PAGE + 1) * 4,
        );
        assert(user@ =~= self@.user());
        let mut i: usize = 0;
        while i < user.len()
            invariant
                user@.len() == USER_BYTES,
                i <= user@.len(),
                self@.ndef() == crate::t2t_emu::model::ndef_from(user@, i as int),
            decreases user@.len() - i,
        {
            let t = user[i];
            if t == 0x00 {
                // NULL TLV
                i += 1;
            } else if t == 0xFE || i + 1 >= user.len() {
                return None;
            } else {
                let (len, hdr): (usize, usize) = if user[i + 1] == 0xFF {
                    if i + 3 >= user.len() {
                        return None;
                    }
                    (crate::bytes::join16(user[i + 2], user[i + 3]) as usize, 4)
                } else {
                    (user[i + 1] as usize, 2)
                };
                if i + hdr + len > user.len() {
                    return None;
                }
                if t == 0x03 {
                    return Some(vstd::slice::slice_subrange(user, i + hdr, i + hdr + len));
                }
                i += hdr + len;
            }
        }
        None
    }

    // ------------------------------------------------------------------
    // chip control
    // ------------------------------------------------------------------

    /// Re-initialise the ST25R3916 (chip defaults, no reader-mode receiver
    /// tuning), configure it as an NFC-A passive target and enter `Off`.
    pub fn start<P: I2cPort, D: Delay>(&mut self, nfc: &mut St25r3916<P>, delay: &mut D) -> (res:
        Result<(), Error<P::Error>>)
        ensures
            final(nfc).trace().extends(old(nfc).trace()),
            forall|l: Trace<BusEvent<P::Error>>| l.extends(final(nfc).trace()) ==> #[trigger]
                emu(old(self)@, old(nfc).chip()).start(l) == Run::Done(
                    emu(final(self)@, final(nfc).chip()),
                    res,
                ),
    {
        proof {
            reveal(Emu::start);
        }
        nfc.init(delay)?;
        bus_result(self.configure(nfc, delay))?;
        Ok(())
    }

    fn configure<P: I2cPort, D: Delay>(&mut self, nfc: &mut St25r3916<P>, delay: &mut D) -> (res:
        Result<(), P::Error>)
        ensures
            final(nfc).trace().extends(old(nfc).trace()),
            forall|l: Trace<BusEvent<P::Error>>| l.extends(final(nfc).trace()) ==> #[trigger]
                emu(old(self)@, old(nfc).chip()).configure(l) == Run::Done(
                    emu(final(self)@, final(nfc).chip()),
                    res,
                ),
    {
        let target = [
            Step::Command(cmd::STOP_ALL),
            Step::Modify { reg: reg::OP_CONTROL, clear: OP_WU, set: 0 },
            Step::Modify { reg: reg::OP_CONTROL, clear: 0x03, set: 0x03 },
            Step::Modify { reg: reg::AUX, clear: 0x30, set: 0x10 },
        ];
        assert(target@ =~= target_steps());
        nfc.run(delay, &target)?;

        // PT memory A: UID[10], ATQA[2], SAK for cascade levels 1..3.
        let u = self.uid();
        let pt = [
            u[0],
            u[1],
            u[2],
            u[3],
            u[4],
            u[5],
            u[6],
            0,
            0,
            0,
            0x44,
            0x00,
            0x04,
            0x00,
            0x00,
        ];
        assert(pt@ =~= self@.pt_memory());
        nfc.load_pt_mem_a(&pt)?;

        let listen = [
            Step::Write(reg::MODE, MODE_TARGET_BITRATE_DETECT),
            Step::Write(reg::NFCIP1_PASSIVE_TARGET, 0x50 | D_AC_AP2P | D_212_424_1R),
            Step::Write(reg::IRQ_MASK_TARGET, 0x00),
            Step::Write(reg::TIMER_EMV_CONTROL, 0x08),
            Step::Write(reg::MASK_RX_TIMER, 4),
            Step::Modify { reg: reg::ISO14443A_NFC, clear: 0xE0, set: 0 },
            Step::Write(reg::ANT_TUNE_A, 0x00),
            Step::Write(reg::ANT_TUNE_B, 0xFF),
            Step::WriteB(reg::B_OVERSHOOT_CONF1, 0x00),
            Step::WriteB(reg::B_OVERSHOOT_CONF2, 0x00),
            Step::WriteB(reg::B_UNDERSHOOT_CONF1, 0x00),
            Step::WriteB(reg::B_UNDERSHOOT_CONF2, 0x00),
            Step::IrqMask(0),
            Step::Command(cmd::UNMASK_RECEIVE_DATA),
        ];
        assert(listen@ =~= listen_steps());
        nfc.run(delay, &listen)?;

        self.dirty = false;
        self.goto_off(nfc, delay, RETRIES)
    }

    /// Leave target mode (chip back in Ready mode, field off, initiator mode).
    pub fn stop<P: I2cPort>(&mut self, nfc: &mut St25r3916<P>) -> (res: Result<(), P::Error>)
        ensures
            final(nfc).trace().extends(old(nfc).trace()),
            forall|l: Trace<BusEvent<P::Error>>| l.extends(final(nfc).trace()) ==> #[trigger]
                emu(old(self)@, old(nfc).chip()).stop(l) == Run::Done(
                    emu(final(self)@, final(nfc).chip()),
                    res,
                ),
    {
        nfc.modify_reg(reg::OP_CONTROL, 0, OP_EN)?;
        nfc.modify_reg(reg::OP_CONTROL, OP_TX_EN | OP_RX_EN, 0)?;
        nfc.modify_reg(reg::NFCIP1_PASSIVE_TARGET, 0, D_AC_AP2P | D_212_424_1R | D_106_AC_A)?;
        nfc.write_reg(reg::MODE, 0x00)?;
        self.state = State::Off;
        Ok(())
    }

    fn field_present<P: I2cPort>(&mut self, nfc: &mut St25r3916<P>) -> (res: Result<
        bool,
        P::Error,
    >)
        ensures
            final(nfc).trace().extends(old(nfc).trace()),
            forall|l: Trace<BusEvent<P::Error>>| l.extends(final(nfc).trace()) ==> #[trigger]
                emu(old(self)@, old(nfc).chip()).field_present(l) == Run::Done(
                    emu(final(self)@, final(nfc).chip()),
                    res,
                ),
            *final(self) == *old(self),
    {
        let v = nfc.read_reg(reg::AUX_DISPLAY)?;
        Ok(v & 0x40 != 0)
    }

    fn goto_off<P: I2cPort, D: Delay>(
        &mut self,
        nfc: &mut St25r3916<P>,
        delay: &mut D,
        tries: u8,
    ) -> (res: Result<(), P::Error>)
        ensures
            final(nfc).trace().extends(old(nfc).trace()),
            forall|l: Trace<BusEvent<P::Error>>| l.extends(final(nfc).trace()) ==> #[trigger]
                emu(old(self)@, old(nfc).chip()).goto_off(l, tries as nat) == Run::Done(
                    emu(final(self)@, final(nfc).chip()),
                    res,
                ),
        decreases tries, 1int,
    {
        self.bitrate_106 = false;
        self.wakeup = false;
        let sense = [
            Step::Command(cmd::STOP_ALL),
            Step::Modify { reg: reg::OP_CONTROL, clear: 0, set: OP_RX_EN },
            Step::Modify { reg: reg::NFCIP1_PASSIVE_TARGET, clear: D_106_AC_A, set: 0 },
            Step::Command(cmd::GO_TO_SENSE),
            Step::Modify { reg: reg::ISO14443A_NFC, clear: 0x20, set: 0 },
            Step::ClearIrq,
            Step::Modify { reg: reg::AUX, clear: 0, set: AUX_NO_CRC_RX },
            Step::Write(reg::MODE, MODE_TARGET_BITRATE_DETECT),
        ];
        assert(sense@ =~= sense_steps());
        nfc.run(delay, &sense)?;
        if self.field_present(nfc)? {
            let ghost found = emu(self@, nfc.chip());
            let res = self.goto_idle(nfc, delay, tries);
            assert forall|l: Trace<BusEvent<P::Error>>| l.extends(nfc.trace()) implies #[trigger]
                emu(old(self)@, old(nfc).chip()).goto_off(l, tries as nat) == Run::Done(
                    emu(self@, nfc.chip()),
                    res,
                ) by {
                assert(found.goto_idle(l, tries as nat) == Run::Done(
                    emu(self@, nfc.chip()),
                    res,
                ));
            }
            return res;
        }
        let off = [
            Step::Modify { reg: reg::OP_CONTROL, clear: OP_TX_EN, set: 0 },
            Step::Modify { reg: reg::OP_CONTROL, clear: 0, set: OP_EN | OP_RX_EN },
        ];
        assert(off@ =~= off_steps());
        nfc.run(delay, &off)?;
        self.state = State::Off;
        Ok(())
    }

    fn osc_wait<P: I2cPort, D: Delay>(&mut self, nfc: &mut St25r3916<P>, delay: &mut D) -> (res:
        Result<bool, P::Error>)
        ensures
            final(nfc).trace().extends(old(nfc).trace()),
            forall|l: Trace<BusEvent<P::Error>>| l.extends(final(nfc).trace()) ==> #[trigger]
                emu(old(self)@, old(nfc).chip()).osc_wait(l, 41) == Run::Done(
                    emu(final(self)@, final(nfc).chip()),
                    res,
                ),
            *final(self) == *old(self),
    {
        let mut waited: u8 = 0;
        loop
            invariant
                waited <= 41,
                *self == *old(self),
                nfc.trace().extends(old(nfc).trace()),
                forall|l: Trace<BusEvent<P::Error>>|
                    l.extends(nfc.trace()) ==> #[trigger] emu(
                        old(self)@,
                        old(nfc).chip(),
                    ).osc_wait(l, 41) == emu(self@, nfc.chip()).osc_wait(l, (41 - waited) as nat),
            decreases 41 - waited,
        {
            let v = nfc.read_reg(reg::AUX_DISPLAY)?;
            if v & 0x10 != 0 {
                return Ok(true);
            }
            if waited >= 41 {
                return Ok(false);
            }
            nfc.pause_ms(delay, 5)?;
            waited += 1;
        }
    }

    fn ensure_osc<P: I2cPort, D: Delay>(&mut self, nfc: &mut St25r3916<P>, delay: &mut D) -> (res:
        Result<bool, P::Error>)
        ensures
            final(nfc).trace().extends(old(nfc).trace()),
            forall|l: Trace<BusEvent<P::Error>>| l.extends(final(nfc).trace()) ==> #[trigger]
                emu(old(self)@, old(nfc).chip()).ensure_osc(l) == Run::Done(
                    emu(final(self)@, final(nfc).chip()),
                    res,
                ),
            *final(self) == *old(self),
    {
        let v = nfc.read_reg(reg::OP_CONTROL)?;
        if v & OP_EN == 0 {
            nfc.modify_reg(reg::OP_CONTROL, 0, OP_EN | OP_RX_EN)?;
            self.osc_wait(nfc, delay)
        } else {
            Ok(true)
        }
    }

    fn flush<P: I2cPort>(&mut self, nfc: &mut St25r3916<P>) -> (res: Result<(), P::Error>)
        ensures
            final(nfc).trace().extends(old(nfc).trace()),
            forall|l: Trace<BusEvent<P::Error>>| l.extends(final(nfc).trace()) ==> #[trigger]
                emu(old(self)@, old(nfc).chip()).flush(l) == Run::Done(
                    emu(final(self)@, final(nfc).chip()),
                    res,
                ),
            *final(self) == *old(self),
    {
        nfc.command(cmd::CLEAR_FIFO)?;
        nfc.command(cmd::UNMASK_RECEIVE_DATA)
    }

    fn goto_idle<P: I2cPort, D: Delay>(
        &mut self,
        nfc: &mut St25r3916<P>,
        delay: &mut D,
        tries: u8,
    ) -> (res: Result<(), P::Error>)
        ensures
            final(nfc).trace().extends(old(nfc).trace()),
            forall|l: Trace<BusEvent<P::Error>>| l.extends(final(nfc).trace()) ==> #[trigger]
                emu(old(self)@, old(nfc).chip()).goto_idle(l, tries as nat) == Run::Done(
                    emu(final(self)@, final(nfc).chip()),
                    res,
                ),
        decreases tries, 0int,
    {
        if !self.ensure_osc(nfc, delay)? {
            if tries == 0 {
                self.state = State::Off;
                return Ok(());
            }
            return self.goto_off(nfc, delay, tries - 1);
        }
        nfc.modify_reg(reg::AUX, 0, AUX_NO_CRC_RX)?;
        if self.state == State::Active && !self.wakeup {
            nfc.modify_reg(reg::NFCIP1_PASSIVE_TARGET, D_106_AC_A, 0)?;
            nfc.command(cmd::GO_TO_SENSE)?;
        }
        self.flush(nfc)?;
        self.wakeup = false;
        self.state = State::Idle;
        Ok(())
    }

    fn goto_ready<P: I2cPort, D: Delay>(&mut self, nfc: &mut St25r3916<P>, delay: &mut D) -> (res:
        Result<(), P::Error>)
        ensures
            final(nfc).trace().extends(old(nfc).trace()),
            forall|l: Trace<BusEvent<P::Error>>| l.extends(final(nfc).trace()) ==> #[trigger]
                emu(old(self)@, old(nfc).chip()).goto_ready(l) == Run::Done(
                    emu(final(self)@, final(nfc).chip()),
                    res,
                ),
    {
        if nfc.take_irq(irq::EOF)? != 0 {
            return self.goto_off(nfc, delay, RETRIES);
        }
        let ready = [
            Step::Modify { reg: reg::AUX, clear: AUX_NO_CRC_RX, set: 0 },
            Step::Write(reg::BIT_RATE, 0x00),
            Step::Modify { reg: reg::OP_CONTROL, clear: OP_WU, set: 0 },
            Step::Write(reg::MODE, MODE_TARGET_LISTEN_A),
        ];
        assert(ready@ =~= ready_steps());
        nfc.run(delay, &ready)?;
        self.state = State::Ready;
        Ok(())
    }

    fn goto_active<P: I2cPort>(&mut self, nfc: &mut St25r3916<P>) -> (res: Result<(), P::Error>)
        ensures
            final(nfc).trace().extends(old(nfc).trace()),
            forall|l: Trace<BusEvent<P::Error>>| l.extends(final(nfc).trace()) ==> #[trigger]
                emu(old(self)@, old(nfc).chip()).goto_active(l) == Run::Done(
                    emu(final(self)@, final(nfc).chip()),
                    res,
                ),
    {
        // auto response off
        nfc.modify_reg(reg::NFCIP1_PASSIVE_TARGET, 0, D_106_AC_A)?;
        nfc.take_irq(irq::ERROR_MASK)?;
        self.state = State::Active;
        Ok(())
    }

    fn goto_halt<P: I2cPort, D: Delay>(&mut self, nfc: &mut St25r3916<P>, delay: &mut D) -> (res:
        Result<(), P::Error>)
        ensures
            final(nfc).trace().extends(old(nfc).trace()),
            forall|l: Trace<BusEvent<P::Error>>| l.extends(final(nfc).trace()) ==> #[trigger]
                emu(old(self)@, old(nfc).chip()).goto_halt(l) == Run::Done(
                    emu(final(self)@, final(nfc).chip()),
                    res,
                ),
    {
        let halt = [
            Step::Modify { reg: reg::NFCIP1_PASSIVE_TARGET, clear: D_106_AC_A, set: 0 },
            Step::Command(cmd::GO_TO_SLEEP),
            Step::Write(reg::MODE, MODE_TARGET_BITRATE_DETECT),
            Step::Modify { reg: reg::ISO14443A_NFC, clear: 0x20, set: 0 },
            Step::Command(cmd::UNMASK_RECEIVE_DATA),
        ];
        assert(halt@ =~= halt_steps());
        nfc.run(delay, &halt)?;
        if !self.field_present(nfc)? {
            return self.goto_off(nfc, delay, RETRIES);
        }
        self.state = State::Halt;
        Ok(())
    }

    fn fall_back<P: I2cPort, D: Delay>(&mut self, nfc: &mut St25r3916<P>, delay: &mut D) -> (res:
        Result<(), P::Error>)
        ensures
            final(nfc).trace().extends(old(nfc).trace()),
            forall|l: Trace<BusEvent<P::Error>>| l.extends(final(nfc).trace()) ==> #[trigger]
                emu(old(self)@, old(nfc).chip()).fall_back(l) == Run::Done(
                    emu(final(self)@, final(nfc).chip()),
                    res,
                ),
    {
        if self.wakeup {
            self.goto_halt(nfc, delay)
        } else {
            self.goto_idle(nfc, delay, RETRIES)
        }
    }

    fn read_bitrate<P: I2cPort>(&mut self, nfc: &mut St25r3916<P>) -> (res: Result<(), P::Error>)
        ensures
            final(nfc).trace().extends(old(nfc).trace()),
            forall|l: Trace<BusEvent<P::Error>>| l.extends(final(nfc).trace()) ==> #[trigger]
                emu(old(self)@, old(nfc).chip()).read_bitrate(l) == Run::Done(
                    emu(final(self)@, final(nfc).chip()),
                    res,
                ),
    {
        let v = nfc.read_reg(reg::BITRATE_DETECT)?;
        self.bitrate_106 = (v >> 4) & 0x03 == 0;
        Ok(())
    }

    // ------------------------------------------------------------------
    // state machine
    // ------------------------------------------------------------------

    fn update_off<P: I2cPort, D: Delay>(&mut self, nfc: &mut St25r3916<P>, delay: &mut D) -> (res:
        Result<(), P::Error>)
        ensures
            final(nfc).trace().extends(old(nfc).trace()),
            forall|l: Trace<BusEvent<P::Error>>| l.extends(final(nfc).trace()) ==> #[trigger]
                emu(old(self)@, old(nfc).chip()).update_off(l) == Run::Done(
                    emu(final(self)@, final(nfc).chip()),
                    res,
                ),
    {
        if nfc.take_irq(irq::EON)? != 0 || self.field_present(nfc)? {
            self.commands = 0;
            self.goto_idle(nfc, delay, RETRIES)?;
        }
        Ok(())
    }

    fn discard<P: I2cPort>(&mut self, nfc: &mut St25r3916<P>, bytes: u16) -> (res: Result<
        (),
        P::Error,
    >)
        ensures
            final(nfc).trace().extends(old(nfc).trace()),
            forall|l: Trace<BusEvent<P::Error>>| l.extends(final(nfc).trace()) ==> #[trigger]
                emu(old(self)@, old(nfc).chip()).discard(l, bytes) == Run::Done(
                    emu(final(self)@, final(nfc).chip()),
                    res,
                ),
            *final(self) == *old(self),
    {
        nfc.read_fifo_bytes(
            if bytes < 4 {
                bytes as usize
            } else {
                4
            },
        )?;
        self.flush(nfc)
    }

    fn stray<P: I2cPort>(&mut self, nfc: &mut St25r3916<P>) -> (res: Result<(), P::Error>)
        ensures
            final(nfc).trace().extends(old(nfc).trace()),
            forall|l: Trace<BusEvent<P::Error>>| l.extends(final(nfc).trace()) ==> #[trigger]
                emu(old(self)@, old(nfc).chip()).stray(l) == Run::Done(
                    emu(final(self)@, final(nfc).chip()),
                    res,
                ),
    {
        nfc.take_irq(irq::ERROR_MASK)?;
        let (bytes, _) = nfc.fifo_status()?;
        self.discard(nfc, bytes)?;
        if self.state == State::Idle {
            nfc.modify_reg(reg::OP_CONTROL, OP_TX_EN, 0)?;
        }
        Ok(())
    }

    fn update_idle<P: I2cPort, D: Delay>(&mut self, nfc: &mut St25r3916<P>, delay: &mut D) -> (res:
        Result<(), P::Error>)
        ensures
            final(nfc).trace().extends(old(nfc).trace()),
            forall|l: Trace<BusEvent<P::Error>>| l.extends(final(nfc).trace()) ==> #[trigger]
                emu(old(self)@, old(nfc).chip()).update_idle(l) == Run::Done(
                    emu(final(self)@, final(nfc).chip()),
                    res,
                ),
    {
        let f = nfc.take_irq(irq::NFCT | irq::RXE | irq::EOF | irq::RXE_PTA)?;
        if f & irq::NFCT != 0 {
            self.read_bitrate(nfc)?;
        }
        if f & irq::EOF != 0 {
            self.goto_off(nfc, delay, RETRIES)?;
        } else if f & irq::RXE != 0 {
            // Frames not handled by the auto-responder: discard.
            self.stray(nfc)?;
        } else if f & irq::RXE_PTA != 0 && self.bitrate_106 {
            let pta = nfc.read_reg(reg::PT_DISPLAY)? & 0x0F;
            let threshold: u8 = if self.state == State::Halt {
                0x09
            } else {
                0x01
            };
            if pta > threshold {
                self.wakeup = self.state == State::Halt;
                self.goto_ready(nfc, delay)?;
            }
        }
        Ok(())
    }

    fn update_ready<P: I2cPort, D: Delay>(&mut self, nfc: &mut St25r3916<P>, delay: &mut D) -> (res:
        Result<(), P::Error>)
        ensures
            final(nfc).trace().extends(old(nfc).trace()),
            forall|l: Trace<BusEvent<P::Error>>| l.extends(final(nfc).trace()) ==> #[trigger]
                emu(old(self)@, old(nfc).chip()).update_ready(l) == Run::Done(
                    emu(final(self)@, final(nfc).chip()),
                    res,
                ),
    {
        let wake = if self.wakeup {
            irq::WU_AX
        } else {
            irq::WU_A
        };
        let f = nfc.take_irq(irq::EOF | wake)?;
        if f & irq::EOF != 0 {
            self.goto_off(nfc, delay, RETRIES)?;
        } else if f & wake != 0 {
            self.goto_active(nfc)?;
        }
        Ok(())
    }

    fn update_active<P: I2cPort, D: Delay>(&mut self, nfc: &mut St25r3916<P>, delay: &mut D) -> (res:
        Result<(), P::Error>)
        ensures
            final(nfc).trace().extends(old(nfc).trace()),
            forall|l: Trace<BusEvent<P::Error>>| l.extends(final(nfc).trace()) ==> #[trigger]
                emu(old(self)@, old(nfc).chip()).update_active(l) == Run::Done(
                    emu(final(self)@, final(nfc).chip()),
                    res,
                ),
    {
        let f = nfc.take_irq(irq::EOF | irq::RXE)?;
        if f & irq::EOF != 0 {
            self.goto_off(nfc, delay, RETRIES)?;
        } else if f & irq::RXE != 0 {
            self.frame(nfc, delay)?;
        }
        Ok(())
    }

    fn frame<P: I2cPort, D: Delay>(&mut self, nfc: &mut St25r3916<P>, delay: &mut D) -> (res:
        Result<(), P::Error>)
        ensures
            final(nfc).trace().extends(old(nfc).trace()),
            forall|l: Trace<BusEvent<P::Error>>| l.extends(final(nfc).trace()) ==> #[trigger]
                emu(old(self)@, old(nfc).chip()).frame(l) == Run::Done(
                    emu(final(self)@, final(nfc).chip()),
                    res,
                ),
    {
        let errs = nfc.take_irq(irq::ERROR_MASK)?;
        let (bytes, _) = nfc.fifo_status()?;
        if errs != 0 || bytes <= 2 || bytes > 64 {
            self.discard(nfc, bytes)?;
            self.fall_back(nfc, delay)
        } else {
            // strip CRC
            let rx = nfc.read_fifo_bytes(bytes as usize - 2)?;
            self.command(nfc, delay, rx.as_slice())
        }
    }

    fn command<P: I2cPort, D: Delay>(
        &mut self,
        nfc: &mut St25r3916<P>,
        delay: &mut D,
        rx: &[u8],
    ) -> (res: Result<(), P::Error>)
        requires
            rx@.len() >= 1,
        ensures
            final(nfc).trace().extends(old(nfc).trace()),
            forall|l: Trace<BusEvent<P::Error>>| l.extends(final(nfc).trace()) ==> #[trigger]
                emu(old(self)@, old(nfc).chip()).command(l, rx@) == Run::Done(
                    emu(final(self)@, final(nfc).chip()),
                    res,
                ),
    {
        self.commands = self.commands.wrapping_add(1);
        self.last_cmd = rx[0];
        match self.handle_command(nfc, rx)? {
            CmdResult::Stay => Ok(()),
            CmdResult::Halt => self.goto_halt(nfc, delay),
            CmdResult::Drop => self.fall_back(nfc, delay),
        }
    }

    /// Drive the state machine; call every few milliseconds while emulating.
    pub fn update<P: I2cPort, D: Delay>(&mut self, nfc: &mut St25r3916<P>, delay: &mut D) -> (res:
        Result<Event, P::Error>)
        ensures
            final(nfc).trace().extends(old(nfc).trace()),
            forall|l: Trace<BusEvent<P::Error>>| l.extends(final(nfc).trace()) ==> #[trigger]
                emu(old(self)@, old(nfc).chip()).update(l) == Run::Done(
                    emu(final(self)@, final(nfc).chip()),
                    res,
                ),
    {
        proof {
            reveal(Emu::update);
        }
        let before = self.state;
        match self.state {
            State::Off => self.update_off(nfc, delay)?,
            State::Idle | State::Halt => self.update_idle(nfc, delay)?,
            State::Ready => self.update_ready(nfc, delay)?,
            State::Active => self.update_active(nfc, delay)?,
        }
        let after = self.state;
        if before == State::Off && after != State::Off {
            Ok(Event::FieldOn)
        } else if before != State::Off && after == State::Off {
            let written = self.dirty;
            self.dirty = false;
            Ok(Event::FieldOff { written })
        } else if before != State::Active && after == State::Active {
            Ok(Event::Selected)
        } else {
            Ok(Event::Unchanged)
        }
    }

    /// Serve one command: memory changes, the answer to send and what comes
    /// next.
    pub fn respond(&mut self, rx: &[u8]) -> (res: (Option<Reply>, CmdResult))
        requires
            rx@.len() >= 1,
        ensures
            old(self)@.serve(rx@) == (Served {
                tag: final(self)@,
                answer: reply_view(res.0),
                next: res.1,
            }),
    {
        if rx[0] == 0x30 && rx.len() == 2 {
            // READ: 4 pages (16 bytes), wrapping at the end of memory.
            let start = rx[1] as usize;
            if start >= PAGES {
                return (nibble(NAK), CmdResult::Drop);
            }
            let mut out: Vec<u8> = Vec::new();
            let mut i: usize = 0;
            while i < 16
                invariant
                    i <= 16,
                    start < PAGES,
                    start == rx@[1],
                    out@ =~= Seq::new(
                        i as nat,
                        |k: int| self.memory@[(rx@[1] * 4 + k) % (MEM_BYTES as int)],
                    ),
                decreases 16 - i,
            {
                out.push(self.memory[(start * 4 + i) % MEM_BYTES]);
                i += 1;
            }
            assert(out@ =~= Seq::new(
                16,
                |k: int| old(self)@.memory[(rx@[1] * 4 + k) % (MEM_BYTES as int)],
            ));
            (Some(Reply { data: out, bits: 0 }), CmdResult::Stay)
        } else if rx[0] == 0x3A && rx.len() == 3 {
            // FAST_READ from..=to pages.
            let from = rx[1] as usize;
            let to = rx[2] as usize;
            if from > to || to >= PAGES || (to - from + 1) * 4 > 512 {
                return (nibble(NAK), CmdResult::Drop);
            }
            let pages = vstd::slice::slice_subrange(
                self.memory.as_slice(),
                from * 4,
                (to + 1) * 4,
            );
            let data = owned(pages);
            assert(data@ =~= self.memory@.subrange(from * 4, (to + 1) * 4));
            (Some(Reply { data, bits: 0 }), CmdResult::Stay)
        } else if rx[0] == 0xA2 && rx.len() == 6 {
            // WRITE one page.
            let page = rx[1] as usize;
            if page < 2 || page >= PAGES {
                return (nibble(NAK), CmdResult::Drop);
            }
            if page >= 3 {
                splice(&mut self.memory, page * 4, vstd::slice::slice_subrange(rx, 2, 6));
                self.dirty = true;
            }
            (nibble(ACK), CmdResult::Stay)
        } else if rx[0] == 0x60 && rx.len() == 1 {
            let version = [0x00u8, 0x04, 0x04, 0x02, 0x01, 0x00, 0x13, 0x03];
            let data = owned(&version);
            assert(data@ =~= seq![0x00u8, 0x04, 0x04, 0x02, 0x01, 0x00, 0x13, 0x03]);
            (Some(Reply { data, bits: 0 }), CmdResult::Stay)
        } else if rx[0] == 0x3C && rx.len() == 2 {
            // READ_SIG: 32 zero bytes.
            let mut data: Vec<u8> = Vec::new();
            data.resize(32, 0);
            assert(data@ =~= Seq::new(32, |_i: int| 0u8));
            (Some(Reply { data, bits: 0 }), CmdResult::Stay)
        } else if rx[0] == 0x50 {
            // HLTA.
            (None, CmdResult::Halt)
        } else {
            (nibble(NAK), CmdResult::Drop)
        }
    }

    /// Serve one command and transmit the answer.
    pub fn handle_command<P: I2cPort>(&mut self, nfc: &mut St25r3916<P>, rx: &[u8]) -> (res: Result<
        CmdResult,
        P::Error,
    >)
        requires
            rx@.len() >= 1,
        ensures
            final(nfc).trace().extends(old(nfc).trace()),
            forall|l: Trace<BusEvent<P::Error>>| l.extends(final(nfc).trace()) ==> #[trigger]
                emu(old(self)@, old(nfc).chip()).handle_command(l, rx@) == Run::Done(
                    emu(final(self)@, final(nfc).chip()),
                    res,
                ),
    {
        let (reply, next) = self.respond(rx);
        if let Some(r) = reply {
            nfc.target_transmit(r.data.as_slice(), r.bits)?;
        }
        Ok(next)
    }
}

fn nibble(v: u8) -> (reply: Option<Reply>)
    ensures
        reply_view(reply) == Some((seq![v], 4u8)),
{
    let mut data: Vec<u8> = Vec::new();
    data.push(v);
    assert(data@ =~= seq![v]);
    Some(Reply { data, bits: 4 })
}

} // verus!
