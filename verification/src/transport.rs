//! The register-level operations of the driver, and how each transport
//! carries one of them over its bus.
//!
//! The driver does no I/O of its own. An [`Access`] names the bus transaction
//! that has to happen next ([`Access::request`]); whoever owns the bus performs
//! it and hands back what the bus returned ([`Access::advance`]).

use crate::error::Error;
use crate::private::Sealed;
use crate::regs::mpu9250::flags::{I2C_MST_STATUS, I2C_SLV4_CTRL, I2C_SLV_RNW};
use crate::regs::{AK8963, AK8963_I2C_ADDRESS, MPU9250, MPU9250_I2C_ADDRESS};
use crate::spi::{lemma_frames, low_byte};
use vstd::prelude::*;

verus! {

/// The two ways of reaching the devices.
#[derive(Debug, Clone, Copy, PartialEq, Eq, Structural)]
pub enum Kind {
    /// I2C with the MPU-9250 in bypass mode: both devices answer on the bus
    Bypass,
    /// SPI: the AK8963 is reached through the MPU-9250's own I2C master
    Spi,
}

/// One register-level operation, or a wait.
#[derive(Debug, Clone, Copy, PartialEq, Eq, Structural)]
pub enum Op {
    /// Read an MPU-9250 register
    MpuRead(MPU9250),
    /// Write a value to an MPU-9250 register
    MpuWrite(MPU9250, u8),
    /// Read an AK8963 register
    AkRead(AK8963),
    /// Write a value to an AK8963 register
    AkWrite(AK8963, u8),
    /// Wait for at least this many milliseconds
    Delay(u8),
}

/// What the owner of the bus is asked to do.
#[derive(Debug, Clone, Copy, PartialEq, Eq, Structural)]
pub enum Request {
    /// Write the two bytes `register`, `value` to the I2C device at `address`.
    I2cWrite { address: u8, register: u8, value: u8 },
    /// Write the byte `register` to the I2C device at `address`, then read one
    /// byte from it in the same transaction.
    I2cWriteRead { address: u8, register: u8 },
    /// Exchange one 16-bit SPI frame: command in the high byte, data in the
    /// low byte.
    SpiTransfer { word: u16 },
    /// Block for at least `ms` milliseconds.
    DelayMs { ms: u8 },
}

/// Where an exchange through the MPU-9250's slave 4 channel stands.
#[derive(Debug, Clone, Copy, PartialEq, Eq, Structural)]
pub enum Phase {
    /// The operation is a single bus transaction
    Direct,
    /// `I2C_SLV4_ADDR` is to be written
    Address,
    /// `I2C_SLV4_REG` is to be written
    Register,
    /// `I2C_SLV4_DO` is to be written
    DataOut,
    /// `I2C_SLV4_CTRL` is to be written, which starts the exchange
    Control,
    /// `I2C_MST_STATUS` is to be read until it reports an outcome
    Poll,
    /// `I2C_SLV4_DI` is to be read
    DataIn,
}

/// How often the status of a slave 4 exchange is read before giving up.
pub const MAX_ATTEMPTS: u16 = 10_000;

/// One operation on its way over a transport.
#[derive(Debug, Clone, Copy, PartialEq, Eq, Structural)]
pub struct Access {
    /// The transport that carries the operation
    pub kind: Kind,
    /// The operation
    pub op: Op,
    /// The transaction that is due
    pub phase: Phase,
    /// How many status reads have shown no outcome so far
    pub attempts: u16,
}

/// What an access has come to.
#[derive(Debug)]
pub enum Progress<E> {
    /// Another transaction is due
    Pending(Access),
    /// The operation is complete; a read brings the register's value
    Done(Option<u8>),
    /// The operation failed
    Failed(Error<E>),
}

/// True for the operations that SPI cannot carry in one frame: those on the
/// AK8963, which go through slave 4 of the MPU-9250's I2C master.
pub open spec fn spec_proxied(kind: Kind, op: Op) -> bool {
    kind == Kind::Spi && (op is AkRead || op is AkWrite)
}

/// True for the operations that SPI cannot carry in one frame: those on the
/// AK8963, which go through slave 4 of the MPU-9250's I2C master.
#[verifier::when_used_as_spec(spec_proxied)]
pub fn proxied(kind: Kind, op: Op) -> (r: bool)
    ensures
        r == spec_proxied(kind, op),
{
    match kind {
        Kind::Bypass => false,
        Kind::Spi => match op {
            Op::AkRead(_) => true,
            Op::AkWrite(_, _) => true,
            _ => false,
        },
    }
}

/// True when the status byte reports none of done, NACK and lost arbitration.
pub open spec fn quiet(status: u8) -> bool {
    &&& status & I2C_MST_STATUS::I2C_SLV4_DONE != I2C_MST_STATUS::I2C_SLV4_DONE
    &&& status & I2C_MST_STATUS::I2C_SLV4_NACK != I2C_MST_STATUS::I2C_SLV4_NACK
    &&& status & I2C_MST_STATUS::I2C_LOST_ARB != I2C_MST_STATUS::I2C_LOST_ARB
}

impl Access {
    /// The access that begins `op` on a transport of the given kind.
    pub open spec fn spec_start(kind: Kind, op: Op) -> Access {
        Access {
            kind,
            op,
            phase: if proxied(kind, op) {
                Phase::Address
            } else {
                Phase::Direct
            },
            attempts: 0,
        }
    }

    /// The phase belongs to the operation, and the count of status reads is
    /// below its limit.
    pub open spec fn wf(self) -> bool {
        &&& self.attempts < MAX_ATTEMPTS
        &&& self.phase != Phase::Poll ==> self.attempts == 0
        &&& proxied(self.kind, self.op) <==> self.phase != Phase::Direct
        &&& self.op is AkRead ==> self.phase != Phase::DataOut
        &&& self.op is AkWrite ==> self.phase != Phase::DataIn
    }

    /// The frame that is due in an exchange through slave 4.
    pub open spec fn slv4_frame(register: AK8963, value: Option<u8>, phase: Phase) -> u16 {
        match phase {
            Phase::Direct | Phase::Address => match value {
                None => crate::spi::write(MPU9250::I2C_SLV4_ADDR, 0x8C),
                Some(_) => crate::spi::write(MPU9250::I2C_SLV4_ADDR, 0x0C),
            },
            Phase::Register => crate::spi::write(MPU9250::I2C_SLV4_REG, register.addr()),
            Phase::DataOut => match value {
                None => crate::spi::write(MPU9250::I2C_SLV4_CTRL, 0x80),
                Some(v) => crate::spi::write(MPU9250::I2C_SLV4_DO, v),
            },
            Phase::Control => crate::spi::write(MPU9250::I2C_SLV4_CTRL, 0x80),
            Phase::Poll => crate::spi::read(MPU9250::I2C_MST_STATUS),
            Phase::DataIn => match value {
                None => crate::spi::read(MPU9250::I2C_SLV4_DI),
                Some(_) => crate::spi::read(MPU9250::I2C_MST_STATUS),
            },
        }
    }

    /// The bus transaction that is due.
    pub open spec fn spec_request(&self) -> Request {
        match self.op {
            Op::Delay(ms) => Request::DelayMs { ms },
            Op::MpuRead(register) => match self.kind {
                Kind::Bypass => Request::I2cWriteRead {
                    address: MPU9250_I2C_ADDRESS,
                    register: register.addr(),
                },
                Kind::Spi => Request::SpiTransfer { word: crate::spi::read(register) },
            },
            Op::MpuWrite(register, value) => match self.kind {
                Kind::Bypass => Request::I2cWrite {
                    address: MPU9250_I2C_ADDRESS,
                    register: register.addr(),
                    value,
                },
                Kind::Spi => Request::SpiTransfer { word: crate::spi::write(register, value) },
            },
            Op::AkRead(register) => match self.kind {
                Kind::Bypass => Request::I2cWriteRead {
                    address: AK8963_I2C_ADDRESS,
                    register: register.addr(),
                },
                Kind::Spi => Request::SpiTransfer {
                    word: Self::slv4_frame(register, None, self.phase),
                },
            },
            Op::AkWrite(register, value) => match self.kind {
                Kind::Bypass => Request::I2cWrite {
                    address: AK8963_I2C_ADDRESS,
                    register: register.addr(),
                    value,
                },
                Kind::Spi => Request::SpiTransfer {
                    word: Self::slv4_frame(register, Some(value), self.phase),
                },
            },
        }
    }

    /// What a status byte means for an exchange through slave 4 that has
    /// already seen `attempts` quiet ones.
    pub open spec fn spec_polled<E>(self, register: AK8963, value: Option<u8>, status: u8) -> Progress<E> {
        if status & I2C_MST_STATUS::I2C_SLV4_DONE == I2C_MST_STATUS::I2C_SLV4_DONE {
            match value {
                None => Progress::Pending(Access { phase: Phase::DataIn, attempts: 0, ..self }),
                Some(_) => Progress::Done(None),
            }
        } else if status & I2C_MST_STATUS::I2C_SLV4_NACK == I2C_MST_STATUS::I2C_SLV4_NACK {
            Progress::Failed(Error::Nack)
        } else if status & I2C_MST_STATUS::I2C_LOST_ARB == I2C_MST_STATUS::I2C_LOST_ARB {
            Progress::Failed(Error::LostArbitration)
        } else if self.attempts >= MAX_ATTEMPTS - 1 {
            Progress::Failed(Error::Timeout { attempts: MAX_ATTEMPTS, register, value })
        } else {
            Progress::Pending(Access { phase: Phase::Poll, attempts: (self.attempts + 1) as u16, ..self })
        }
    }

    /// What the answer to the due frame means for an exchange through
    /// slave 4.
    pub open spec fn spec_exchanged<E>(self, register: AK8963, value: Option<u8>, word: u16) -> Progress<E> {
        match self.phase {
            Phase::Direct | Phase::Address => Progress::Pending(
                Access { phase: Phase::Register, attempts: 0, ..self },
            ),
            Phase::Register => match value {
                None => Progress::Pending(Access { phase: Phase::Control, attempts: 0, ..self }),
                Some(_) => Progress::Pending(Access { phase: Phase::DataOut, attempts: 0, ..self }),
            },
            Phase::DataOut => match value {
                None => Progress::Pending(Access { phase: Phase::Poll, attempts: 0, ..self }),
                Some(_) => Progress::Pending(Access { phase: Phase::Control, attempts: 0, ..self }),
            },
            Phase::Control => Progress::Pending(Access { phase: Phase::Poll, attempts: 0, ..self }),
            Phase::Poll => self.spec_polled(register, value, low_byte(word)),
            Phase::DataIn => match value {
                None => Progress::Done(Some(low_byte(word))),
                Some(_) => self.spec_polled(register, value, low_byte(word)),
            },
        }
    }

    /// What the bus's answer to the due transaction means. `reply` is the
    /// frame that an SPI transfer captured, or the byte that an I2C read
    /// returned; after a write or a wait its value does not matter.
    pub open spec fn spec_advance<E>(self, reply: Result<u16, E>) -> Progress<E> {
        match reply {
            Err(e) => Progress::Failed(Error::Peripheral(e)),
            Ok(word) => match self.op {
                Op::Delay(_) => Progress::Done(None),
                Op::MpuRead(_) => Progress::Done(Some(low_byte(word))),
                Op::MpuWrite(_, _) => Progress::Done(None),
                Op::AkRead(register) => match self.kind {
                    Kind::Bypass => Progress::Done(Some(low_byte(word))),
                    Kind::Spi => self.spec_exchanged(register, None, word),
                },
                Op::AkWrite(register, value) => match self.kind {
                    Kind::Bypass => Progress::Done(None),
                    Kind::Spi => self.spec_exchanged(register, Some(value), word),
                },
            },
        }
    }

    /// Begins `op` on a transport of the given kind.
    #[verifier::when_used_as_spec(spec_start)]
    pub fn start(kind: Kind, op: Op) -> (r: Access)
        ensures
            r == Self::spec_start(kind, op),
            r.wf(),
    {
        let phase = if proxied(kind, op) {
            Phase::Address
        } else {
            Phase::Direct
        };
        Access { kind, op, phase, attempts: 0 }
    }

    /// The frame that is due in an exchange through slave 4.
    fn frame(register: AK8963, value: Option<u8>, phase: Phase) -> (r: u16)
        ensures
            r == Self::slv4_frame(register, value, phase),
    {
        proof {
            lemma_frames(0, 0, 0);
        }
        let status = crate::spi::read(MPU9250::I2C_MST_STATUS);
        let start = crate::spi::write(MPU9250::I2C_SLV4_CTRL, I2C_SLV4_CTRL::I2C_SLV4_EN);
        match phase {
            Phase::Direct | Phase::Address => match value {
                None => crate::spi::write(MPU9250::I2C_SLV4_ADDR, AK8963_I2C_ADDRESS | I2C_SLV_RNW),
                Some(_) => crate::spi::write(MPU9250::I2C_SLV4_ADDR, AK8963_I2C_ADDRESS),
            },
            Phase::Register => crate::spi::write(MPU9250::I2C_SLV4_REG, register.addr()),
            Phase::DataOut => match value {
                None => start,
                Some(v) => crate::spi::write(MPU9250::I2C_SLV4_DO, v),
            },
            Phase::Control => start,
            Phase::Poll => status,
            Phase::DataIn => match value {
                None => crate::spi::read(MPU9250::I2C_SLV4_DI),
                Some(_) => status,
            },
        }
    }

    /// The bus transaction that is due.
    #[verifier::when_used_as_spec(spec_request)]
    pub fn request(&self) -> (r: Request)
        ensures
            r == self.spec_request(),
    {
        match self.op {
            Op::Delay(ms) => Request::DelayMs { ms },
            Op::MpuRead(register) => match self.kind {
                Kind::Bypass => Request::I2cWriteRead {
                    address: MPU9250_I2C_ADDRESS,
                    register: register.addr(),
                },
                Kind::Spi => Request::SpiTransfer { word: crate::spi::read(register) },
            },
            Op::MpuWrite(register, value) => match self.kind {
                Kind::Bypass => Request::I2cWrite {
                    address: MPU9250_I2C_ADDRESS,
                    register: register.addr(),
                    value,
                },
                Kind::Spi => Request::SpiTransfer { word: crate::spi::write(register, value) },
            },
            Op::AkRead(register) => match self.kind {
                Kind::Bypass => Request::I2cWriteRead {
                    address: AK8963_I2C_ADDRESS,
                    register: register.addr(),
                },
                Kind::Spi => Request::SpiTransfer { word: Self::frame(register, None, self.phase) },
            },
            Op::AkWrite(register, value) => match self.kind {
                Kind::Bypass => Request::I2cWrite {
                    address: AK8963_I2C_ADDRESS,
                    register: register.addr(),
                    value,
                },
                Kind::Spi => Request::SpiTransfer {
                    word: Self::frame(register, Some(value), self.phase),
                },
            },
        }
    }

    /// Decides on a status byte: done, NACK and lost arbitration are looked
    /// for in this order, and a quiet status counts towards the limit.
    fn polled<E>(self, register: AK8963, value: Option<u8>, status: u8) -> (r: Progress<E>)
        ensures
            r == self.spec_polled::<E>(register, value, status),
    {
        proof {
            lemma_frames(0, status, 0);
        }
        let status = I2C_MST_STATUS::from_bits_truncate(status);
        if status.contains(I2C_MST_STATUS::I2C_SLV4_DONE) {
            match value {
                None => Progress::Pending(
                    Access { kind: self.kind, op: self.op, phase: Phase::DataIn, attempts: 0 },
                ),
                Some(_) => Progress::Done(None),
            }
        } else if status.contains(I2C_MST_STATUS::I2C_SLV4_NACK) {
            Progress::Failed(Error::Nack)
        } else if status.contains(I2C_MST_STATUS::I2C_LOST_ARB) {
            Progress::Failed(Error::LostArbitration)
        } else if self.attempts >= MAX_ATTEMPTS - 1 {
            Progress::Failed(Error::Timeout { attempts: MAX_ATTEMPTS, register, value })
        } else {
            Progress::Pending(
                Access {
                    kind: self.kind,
                    op: self.op,
                    phase: Phase::Poll,
                    attempts: self.attempts + 1,
                },
            )
        }
    }

    /// Moves an exchange through slave 4 on by one frame.
    fn exchanged<E>(self, register: AK8963, value: Option<u8>, word: u16) -> (r: Progress<E>)
        ensures
            r == self.spec_exchanged::<E>(register, value, word),
    {
        let kind = self.kind;
        let op = self.op;
        match self.phase {
            Phase::Direct | Phase::Address => Progress::Pending(
                Access { kind, op, phase: Phase::Register, attempts: 0 },
            ),
            Phase::Register => match value {
                None => Progress::Pending(Access { kind, op, phase: Phase::Control, attempts: 0 }),
                Some(_) => Progress::Pending(Access { kind, op, phase: Phase::DataOut, attempts: 0 }),
            },
            Phase::DataOut => match value {
                None => Progress::Pending(Access { kind, op, phase: Phase::Poll, attempts: 0 }),
                Some(_) => Progress::Pending(Access { kind, op, phase: Phase::Control, attempts: 0 }),
            },
            Phase::Control => Progress::Pending(Access { kind, op, phase: Phase::Poll, attempts: 0 }),
            Phase::Poll => self.polled(register, value, low_byte(word)),
            Phase::DataIn => match value {
                None => Progress::Done(Some(low_byte(word))),
                Some(_) => self.polled(register, value, low_byte(word)),
            },
        }
    }

    /// Takes the bus's answer to the due transaction. `reply` is the frame
    /// that an SPI transfer captured, or the byte that an I2C read returned;
    /// after a write or a wait its value does not matter. An error of the
    /// peripheral ends the access and is handed on unchanged.
    #[verifier::when_used_as_spec(spec_advance)]
    pub fn advance<E>(self, reply: Result<u16, E>) -> (r: Progress<E>)
        ensures
            r == self.spec_advance(reply),
            r matches Progress::Pending(next) ==> next.kind == self.kind && next.op == self.op,
            self.wf() ==> (r matches Progress::Pending(next) ==> next.wf()),
    {
        match reply {
            Err(e) => Progress::Failed(Error::Peripheral(e)),
            Ok(word) => match self.op {
                Op::Delay(_) => Progress::Done(None),
                Op::MpuRead(_) => Progress::Done(Some(low_byte(word))),
                Op::MpuWrite(_, _) => Progress::Done(None),
                Op::AkRead(register) => match self.kind {
                    Kind::Bypass => Progress::Done(Some(low_byte(word))),
                    Kind::Spi => self.exchanged(register, None, word),
                },
                Op::AkWrite(register, value) => match self.kind {
                    Kind::Bypass => Progress::Done(None),
                    Kind::Spi => self.exchanged(register, Some(value), word),
                },
            },
        }
    }
}

/// True when every reply is a frame, none an error of the peripheral.
pub open spec fn all_ok<E>(replies: Seq<Result<u16, E>>) -> bool {
    forall|i: int| 0 <= i < replies.len() ==> (#[trigger] replies[i]) is Ok
}

/// True when every reply is a frame whose data byte is a quiet status.
pub open spec fn all_quiet<E>(replies: Seq<Result<u16, E>>) -> bool {
    forall|i: int|
        0 <= i < replies.len() ==> ((#[trigger] replies[i]) matches Ok(word) && quiet(
            low_byte(word),
        ))
}

impl Access {
    /// What the access has come to once the bus has given `replies`, one to
    /// each transaction in turn. Replies past the end of the access are not
    /// looked at.
    pub open spec fn run<E>(self, replies: Seq<Result<u16, E>>) -> Progress<E>
        decreases replies.len(),
    {
        if replies.len() == 0 {
            Progress::Pending(self)
        } else {
            match self.advance(replies[0]) {
                Progress::Pending(next) => next.run(replies.drop_first()),
                end => end,
            }
        }
    }

    /// Running over replies that come in two parts is running over the first
    /// part and then, if the access is still pending, over the second.
    pub proof fn lemma_run_split<E>(self, first: Seq<Result<u16, E>>, second: Seq<Result<u16, E>>)
        ensures
            self.run(first + second) == match self.run(first) {
                Progress::Pending(next) => next.run(second),
                end => end,
            },
        decreases first.len(),
    {
        if first.len() > 0 {
            assert((first + second).drop_first() =~= first.drop_first() + second);
            match self.advance(first[0]) {
                Progress::Pending(next) => {
                    next.lemma_run_split(first.drop_first(), second);
                },
                _ => {},
            }
        }
    }

    /// The operation of an exchange through slave 4 on `register`: a write
    /// where there is a value, a read where there is none.
    pub open spec fn slv4_op(register: AK8963, value: Option<u8>) -> Op {
        match value {
            Some(v) => Op::AkWrite(register, v),
            None => Op::AkRead(register),
        }
    }

    /// An exchange through slave 4 that is reading the status, after
    /// `attempts` quiet ones.
    pub open spec fn polling(register: AK8963, value: Option<u8>, attempts: u16) -> Access {
        Access { kind: Kind::Spi, op: Self::slv4_op(register, value), phase: Phase::Poll, attempts }
    }

    /// Quiet statuses keep an exchange polling and are counted, until the
    /// count reaches the limit: the status read that brings it there ends
    /// the exchange with a timeout.
    pub proof fn lemma_quiet_polls<E>(
        register: AK8963,
        value: Option<u8>,
        attempts: u16,
        polls: Seq<Result<u16, E>>,
    )
        requires
            all_quiet(polls),
            attempts + polls.len() <= MAX_ATTEMPTS,
            attempts < MAX_ATTEMPTS,
        ensures
            attempts + polls.len() < MAX_ATTEMPTS ==> Self::polling(register, value, attempts).run(
                polls,
            ) == Progress::<E>::Pending(
                Self::polling(register, value, (attempts + polls.len()) as u16),
            ),
            attempts + polls.len() == MAX_ATTEMPTS ==> Self::polling(register, value, attempts).run(
                polls,
            ) == Progress::<E>::Failed(
                Error::Timeout { attempts: MAX_ATTEMPTS, register, value },
            ),
        decreases polls.len(),
    {
        if polls.len() > 0 {
            let rest = polls.drop_first();
            assert(all_quiet(rest));
            if attempts + 1 < MAX_ATTEMPTS {
                Self::lemma_quiet_polls(register, value, (attempts + 1) as u16, rest);
            }
        }
    }

    /// The frames that open an exchange through slave 4, before the status
    /// is read: address, register and control for a read; address,
    /// register, data and control for a write.
    pub open spec fn opening(register: AK8963, value: Option<u8>) -> Seq<Request> {
        match value {
            None => seq![
                Request::SpiTransfer { word: crate::spi::write(MPU9250::I2C_SLV4_ADDR, 0x8C) },
                Request::SpiTransfer {
                    word: crate::spi::write(MPU9250::I2C_SLV4_REG, register.addr()),
                },
                Request::SpiTransfer { word: crate::spi::write(MPU9250::I2C_SLV4_CTRL, 0x80) },
            ],
            Some(v) => seq![
                Request::SpiTransfer { word: crate::spi::write(MPU9250::I2C_SLV4_ADDR, 0x0C) },
                Request::SpiTransfer {
                    word: crate::spi::write(MPU9250::I2C_SLV4_REG, register.addr()),
                },
                Request::SpiTransfer { word: crate::spi::write(MPU9250::I2C_SLV4_DO, v) },
                Request::SpiTransfer { word: crate::spi::write(MPU9250::I2C_SLV4_CTRL, 0x80) },
            ],
        }
    }

    /// An exchange through slave 4 opens with the frames of [`Self::opening`],
    /// whatever the bus answers to them, and then reads the status.
    pub proof fn law_opening<E>(register: AK8963, value: Option<u8>, lead: Seq<Result<u16, E>>)
        requires
            all_ok(lead),
            lead.len() <= Self::opening(register, value).len(),
        ensures
            lead.len() < Self::opening(register, value).len() ==> (Self::start(
                Kind::Spi,
                Self::slv4_op(register, value),
            ).run(lead) matches Progress::Pending(a) && a.request() == Self::opening(
                register,
                value,
            )[lead.len() as int]),
            lead.len() == Self::opening(register, value).len() ==> Self::start(
                Kind::Spi,
                Self::slv4_op(register, value),
            ).run(lead) == Progress::<E>::Pending(Self::polling(register, value, 0)),
            Self::polling(register, value, 0).request() == (Request::SpiTransfer {
                word: crate::spi::read(MPU9250::I2C_MST_STATUS),
            }),
    {
        reveal_with_fuel(Access::run, 5);
    }

    /// An exchange through slave 4 whose status stays quiet reads the
    /// status exactly [`MAX_ATTEMPTS`] times: after fewer quiet statuses it
    /// is still reading the status, and the quiet status that makes the
    /// count full ends it with a timeout that names the register and, for a
    /// write, the value.
    pub proof fn law_timeout<E>(
        register: AK8963,
        value: Option<u8>,
        lead: Seq<Result<u16, E>>,
        polls: Seq<Result<u16, E>>,
    )
        requires
            all_ok(lead),
            lead.len() == Self::opening(register, value).len(),
            all_quiet(polls),
            polls.len() <= MAX_ATTEMPTS,
        ensures
            polls.len() < MAX_ATTEMPTS ==> Self::start(
                Kind::Spi,
                Self::slv4_op(register, value),
            ).run(lead + polls) == Progress::<E>::Pending(
                Self::polling(register, value, polls.len() as u16),
            ),
            polls.len() == MAX_ATTEMPTS ==> Self::start(
                Kind::Spi,
                Self::slv4_op(register, value),
            ).run(lead + polls) == Progress::<E>::Failed(
                Error::Timeout { attempts: MAX_ATTEMPTS, register, value },
            ),
    {
        let start = Self::start(Kind::Spi, Self::slv4_op(register, value));
        Self::law_opening(register, value, lead);
        start.lemma_run_split(lead, polls);
        Self::lemma_quiet_polls(register, value, 0, polls);
    }

    /// An exchange through slave 4 ends at the first status that is not
    /// quiet: done is looked for first, then NACK, then lost arbitration. A
    /// write is then complete; a read goes on to fetch the data byte from
    /// `I2C_SLV4_DI`.
    pub proof fn law_outcome<E>(
        register: AK8963,
        value: Option<u8>,
        lead: Seq<Result<u16, E>>,
        polls: Seq<Result<u16, E>>,
        status: u16,
        data: u16,
    )
        requires
            all_ok(lead),
            lead.len() == Self::opening(register, value).len(),
            all_quiet(polls),
            polls.len() < MAX_ATTEMPTS,
            !quiet(low_byte(status)),
        ensures
            ({
                let start = Self::start(Kind::Spi, Self::slv4_op(register, value));
                let byte = low_byte(status);
                let done = byte & I2C_MST_STATUS::I2C_SLV4_DONE == I2C_MST_STATUS::I2C_SLV4_DONE;
                let nack = byte & I2C_MST_STATUS::I2C_SLV4_NACK == I2C_MST_STATUS::I2C_SLV4_NACK;
                let ended = start.run(lead + polls + seq![Ok::<u16, E>(status)]);
                let fetched = start.run(
                    lead + polls + seq![Ok::<u16, E>(status)] + seq![Ok::<u16, E>(data)],
                );
                &&& done && value is Some ==> ended == Progress::<E>::Done(None)
                &&& done && value is None ==> (ended matches Progress::Pending(a) && a.request()
                    == (Request::SpiTransfer { word: crate::spi::read(MPU9250::I2C_SLV4_DI) })
                    && fetched == Progress::<E>::Done(Some(low_byte(data))))
                &&& !done && nack ==> ended == Progress::<E>::Failed(Error::Nack)
                &&& !done && !nack ==> ended == Progress::<E>::Failed(Error::LostArbitration)
            }),
    {
        let start = Self::start(Kind::Spi, Self::slv4_op(register, value));
        let last = seq![Ok::<u16, E>(status)];
        let more = seq![Ok::<u16, E>(data)];
        Self::law_timeout(register, value, lead, polls);
        start.lemma_run_split(lead + polls, last);
        start.lemma_run_split(lead + polls + last, more);
        reveal_with_fuel(Access::run, 3);
    }
}

/// The four register operations that every transport offers. The device
/// logic is written against these; the set of transports is closed.
pub trait Transport: Sealed {
    /// Which transport this is.
    spec fn spec_kind(&self) -> Kind;

    /// Which transport this is.
    fn kind(&self) -> (k: Kind)
        ensures
            k == self.spec_kind(),
    ;

    /// Begins reading a register of the MPU-9250.
    fn mpu9250_read(&self, register: MPU9250) -> (a: Access)
        ensures
            a == Access::start(self.spec_kind(), Op::MpuRead(register)),
    ;

    /// Begins writing a value to a register of the MPU-9250.
    fn mpu9250_write(&self, register: MPU9250, value: u8) -> (a: Access)
        ensures
            a == Access::start(self.spec_kind(), Op::MpuWrite(register, value)),
    ;

    /// Begins reading a register of the AK8963.
    fn ak8963_read(&self, register: AK8963) -> (a: Access)
        ensures
            a == Access::start(self.spec_kind(), Op::AkRead(register)),
    ;

    /// Begins writing a value to a register of the AK8963.
    fn ak8963_write(&self, register: AK8963, value: u8) -> (a: Access)
        ensures
            a == Access::start(self.spec_kind(), Op::AkWrite(register, value)),
    ;
}

} // verus!
