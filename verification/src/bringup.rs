//! Bring-up: the one ordered sequence of register operations and waits that
//! takes both devices out of reset, checks who they are, reads the
//! magnetometer's sensitivity fuses and applies the configuration.
//!
//! The sequence is data ([`script`]); a [`Stage`] is a position in it. The
//! owner of the bus performs what [`Bringup::request`] names and hands the
//! answer to [`Bringup::advance`], until the device is ready or bring-up has
//! failed.

use crate::config::Config;
use crate::error::Error;
use crate::handle::sensitivity;
use crate::mpu::Mpu;
use crate::regs::ak8963::flags::{CNTL1, CNTL1_MODE, CNTL2};
use crate::regs::mpu9250::flags::{
    I2C_MST_CLK, I2C_MST_CTRL, I2C_SLVX_CTRL, I2C_SLVX_FLAGS, I2C_SLV_RNW, INT_PIN_CFG, PWR_MGMT_1,
    PWR_MGMT_1_CLKSEL, USER_CTRL,
};
use crate::regs::{AK8963, AK8963_I2C_ADDRESS, MPU9250};
use crate::transport::{Access, Kind, Op, Progress, Request, Transport};
use crate::triplet::Triplet;
use vstd::prelude::*;

verus! {

/// How each transport is made ready and both devices are reset.
///
/// Over I2C the MPU-9250 is reset first, its I2C master is switched off and
/// bypass is enabled; only then can the AK8963 be powered down and reset.
/// Over SPI the I2C master is switched on to power the AK8963 down, the
/// MPU-9250 is reset, and the I2C master is switched on again, since the
/// reset cleared it.
pub open spec fn prelude(kind: Kind) -> Seq<Op> {
    match kind {
        Kind::Bypass => seq![
            Op::MpuWrite(MPU9250::PWR_MGMT_1, 0x80),
            Op::Delay(10),
            Op::MpuWrite(MPU9250::USER_CTRL, 0x00),
            Op::MpuWrite(MPU9250::INT_PIN_CFG, 0x02),
            Op::AkWrite(AK8963::CNTL1, 0x00),
            Op::Delay(10),
            Op::AkWrite(AK8963::CNTL2, 0x01),
            Op::MpuWrite(MPU9250::PWR_MGMT_1, 0x01),
        ],
        Kind::Spi => seq![
            Op::MpuWrite(MPU9250::USER_CTRL, 0x20),
            Op::MpuWrite(MPU9250::I2C_MST_CTRL, 13),
            Op::AkWrite(AK8963::CNTL1, 0x00),
            Op::MpuWrite(MPU9250::PWR_MGMT_1, 0x80),
            Op::Delay(10),
            Op::MpuWrite(MPU9250::USER_CTRL, 0x30),
            Op::MpuWrite(MPU9250::I2C_MST_CTRL, 13),
            Op::AkWrite(AK8963::CNTL2, 0x01),
            Op::MpuWrite(MPU9250::PWR_MGMT_1, 0x01),
        ],
    }
}

/// The identity check and the capture of the sensitivity fuses. `cntl1` is
/// the value that the read of `CNTL1` returned, which is written back once
/// the fuses are read.
pub open spec fn identify(cntl1: u8) -> Seq<Op> {
    seq![
        Op::MpuRead(MPU9250::WHO_AM_I),
        Op::AkRead(AK8963::WIA),
        Op::AkRead(AK8963::CNTL1),
        Op::AkWrite(AK8963::CNTL1, 0x0F),
        Op::Delay(50),
        Op::AkRead(AK8963::ASAX),
        Op::AkRead(AK8963::ASAY),
        Op::AkRead(AK8963::ASAZ),
        Op::AkWrite(AK8963::CNTL1, cntl1),
        Op::Delay(20),
    ]
}

/// What follows the configuration. Over SPI, slave 0 of the MPU-9250's I2C
/// master is armed to read the AK8963's six data bytes and `ST2` at every
/// sample.
pub open spec fn epilogue(kind: Kind) -> Seq<Op> {
    match kind {
        Kind::Bypass => seq![],
        Kind::Spi => seq![
            Op::MpuWrite(MPU9250::I2C_SLV0_ADDR, 0x8C),
            Op::MpuWrite(MPU9250::I2C_SLV0_REG, 0x03),
            Op::MpuWrite(MPU9250::I2C_SLV0_CTRL, 0x87),
        ],
    }
}

/// The whole of bring-up, in order.
pub open spec fn script(kind: Kind, config: Config, cntl1: u8) -> Seq<Op> {
    prelude(kind) + identify(cntl1) + config.spec_apply() + epilogue(kind)
}

/// Position in [`script`] of the read of the MPU-9250's `WHO_AM_I`: the
/// first operation after the prelude.
pub open spec fn spec_base(kind: Kind) -> usize {
    match kind {
        Kind::Bypass => 8,
        Kind::Spi => 9,
    }
}

/// How many operations bring-up takes.
pub open spec fn spec_len(kind: Kind) -> usize {
    match kind {
        Kind::Bypass => 24,
        Kind::Spi => 28,
    }
}

/// The script has as many operations as [`spec_len`] says, and the prelude
/// as many as [`spec_base`].
pub proof fn law_script_len(kind: Kind, config: Config, cntl1: u8)
    ensures
        prelude(kind).len() == spec_base(kind),
        identify(cntl1).len() == 10,
        config.spec_apply().len() == 6,
        script(kind, config, cntl1).len() == spec_len(kind),
{
}

/// Position of the read of the MPU-9250's `WHO_AM_I`.
#[verifier::when_used_as_spec(spec_base)]
pub fn base(kind: Kind) -> (r: usize)
    ensures
        r == spec_base(kind),
{
    match kind {
        Kind::Bypass => 8,
        Kind::Spi => 9,
    }
}

/// How many operations bring-up takes.
#[verifier::when_used_as_spec(spec_len)]
pub fn len(kind: Kind) -> (r: usize)
    ensures
        r == spec_len(kind),
{
    match kind {
        Kind::Bypass => 24,
        Kind::Spi => 28,
    }
}

/// The bytes that bring-up writes, as their flags spell them.
proof fn lemma_bytes()
    by (bit_vector)
    ensures
        0x02u8 & 0xFEu8 == 0x02u8,
        0x01u8 & 0x01u8 == 0x01u8,
        0x20u8 & 0x77u8 == 0x20u8,
        (0x20u8 | 0x10u8) & 0x77u8 == 0x30u8,
        0x0Cu8 | 0x80u8 == 0x8Cu8,
        0x80u8 & 0xF0u8 == 0x80u8,
        0x80u8 | (7u8 & 0x0Fu8) == 0x87u8,
{
}

/// The prelude over I2C.
fn bypass_prelude() -> (ops: [Op; 8])
    ensures
        ops@ == prelude(Kind::Bypass),
{
    proof {
        lemma_bytes();
    }
    [
        Op::MpuWrite(MPU9250::PWR_MGMT_1, PWR_MGMT_1::reset().encode()),
        Op::Delay(10),
        Op::MpuWrite(MPU9250::USER_CTRL, USER_CTRL::empty().bits()),
        Op::MpuWrite(
            MPU9250::INT_PIN_CFG,
            INT_PIN_CFG::from_bits_truncate(INT_PIN_CFG::BYPASS_EN).bits(),
        ),
        Op::AkWrite(AK8963::CNTL1, CNTL1::power_down().encode()),
        Op::Delay(10),
        Op::AkWrite(AK8963::CNTL2, CNTL2::from_bits_truncate(CNTL2::SRST).bits()),
        Op::MpuWrite(
            MPU9250::PWR_MGMT_1,
            PWR_MGMT_1::clock_select(PWR_MGMT_1_CLKSEL::AutoSelect).encode(),
        ),
    ]
}

/// The prelude over SPI.
fn spi_prelude() -> (ops: [Op; 9])
    ensures
        ops@ == prelude(Kind::Spi),
{
    proof {
        lemma_bytes();
    }
    [
        Op::MpuWrite(
            MPU9250::USER_CTRL,
            USER_CTRL::from_bits_truncate(USER_CTRL::I2C_MST_EN).bits(),
        ),
        Op::MpuWrite(MPU9250::I2C_MST_CTRL, I2C_MST_CTRL::clock(I2C_MST_CLK::KHz400).encode()),
        Op::AkWrite(AK8963::CNTL1, CNTL1::power_down().encode()),
        Op::MpuWrite(MPU9250::PWR_MGMT_1, PWR_MGMT_1::reset().encode()),
        Op::Delay(10),
        Op::MpuWrite(
            MPU9250::USER_CTRL,
            USER_CTRL::from_bits_truncate(USER_CTRL::I2C_MST_EN | USER_CTRL::I2C_IF_DIS).bits(),
        ),
        Op::MpuWrite(MPU9250::I2C_MST_CTRL, I2C_MST_CTRL::clock(I2C_MST_CLK::KHz400).encode()),
        Op::AkWrite(AK8963::CNTL2, CNTL2::from_bits_truncate(CNTL2::SRST).bits()),
        Op::MpuWrite(
            MPU9250::PWR_MGMT_1,
            PWR_MGMT_1::clock_select(PWR_MGMT_1_CLKSEL::AutoSelect).encode(),
        ),
    ]
}

/// The identity check and the capture of the sensitivity fuses.
fn identify_ops(cntl1: u8) -> (ops: [Op; 10])
    ensures
        ops@ == identify(cntl1),
{
    [
        Op::MpuRead(MPU9250::WHO_AM_I),
        Op::AkRead(AK8963::WIA),
        Op::AkRead(AK8963::CNTL1),
        Op::AkWrite(AK8963::CNTL1, CNTL1::with_mode(CNTL1_MODE::FUSE_ROM_ACCESS).encode()),
        Op::Delay(50),
        Op::AkRead(AK8963::ASAX),
        Op::AkRead(AK8963::ASAY),
        Op::AkRead(AK8963::ASAZ),
        Op::AkWrite(AK8963::CNTL1, cntl1),
        Op::Delay(20),
    ]
}

/// What follows the configuration over SPI.
fn spi_epilogue() -> (ops: [Op; 3])
    ensures
        ops@ == epilogue(Kind::Spi),
{
    proof {
        lemma_bytes();
    }
    [
        Op::MpuWrite(MPU9250::I2C_SLV0_ADDR, AK8963_I2C_ADDRESS | I2C_SLV_RNW),
        Op::MpuWrite(MPU9250::I2C_SLV0_REG, AK8963::HXL.addr()),
        Op::MpuWrite(
            MPU9250::I2C_SLV0_CTRL,
            I2C_SLVX_CTRL {
                flags: I2C_SLVX_FLAGS::from_bits_truncate(I2C_SLVX_FLAGS::EN),
                length: 7,
            }.encode(),
        ),
    ]
}

/// The operation at position `pc` of the script.
fn op_at(kind: Kind, config: &Config, pc: usize, cntl1: u8) -> (op: Op)
    requires
        pc < len(kind),
    ensures
        op == script(kind, *config, cntl1)[pc as int],
{
    let first = base(kind);
    if pc < first {
        match kind {
            Kind::Bypass => bypass_prelude()[pc],
            Kind::Spi => spi_prelude()[pc],
        }
    } else if pc < first + 10 {
        identify_ops(cntl1)[pc - first]
    } else if pc < first + 16 {
        config.apply()[pc - first - 10]
    } else {
        spi_epilogue()[pc - first - 16]
    }
}

/// A position in bring-up: what has been learnt so far, and the operation
/// that is on its way.
#[derive(Debug, Clone, Copy, PartialEq, Eq, Structural)]
pub struct Stage {
    /// The transport that bring-up runs over
    pub kind: Kind,
    /// The configuration to apply
    pub config: Config,
    /// Position in the script of the operation that is on its way
    pub pc: usize,
    /// The operation that is on its way
    pub access: Access,
    /// What the read of `CNTL1` returned; zero before it
    pub cntl1: u8,
    /// What the reads of `ASAX`, `ASAY` and `ASAZ` returned; zero before them
    pub fuse: Triplet<u8>,
}

/// What a stage has come to.
#[derive(Debug)]
pub enum Next<E> {
    /// Another transaction is due
    Pending(Stage),
    /// Bring-up is complete; these are the three fuse bytes
    Ready(Triplet<u8>),
    /// Bring-up failed
    Failed(Error<E>),
}

impl Stage {
    /// The stage at which bring-up begins.
    pub open spec fn spec_start(kind: Kind, config: Config) -> Stage {
        Stage {
            kind,
            config,
            pc: 0,
            access: Access::start(kind, script(kind, config, 0)[0]),
            cntl1: 0,
            fuse: Triplet { x: 0, y: 0, z: 0 },
        }
    }

    /// The position lies in the script, and the operation on its way is the
    /// one that the script has there.
    pub open spec fn wf(self) -> bool {
        &&& self.pc < len(self.kind)
        &&& self.access.kind == self.kind
        &&& self.access.op == script(self.kind, self.config, self.cntl1)[self.pc as int]
    }

    /// What the completion of the operation at this stage means. `value` is
    /// what a read returned.
    pub open spec fn spec_completed<E>(self, value: Option<u8>) -> Next<E> {
        let v = match value {
            Some(v) => v,
            None => 0,
        };
        let first = base(self.kind);
        if self.pc == first && !(v == 0x71 || v == 0x73) {
            Next::Failed(
                Error::WhoAmI { expected: crate::regs::mpu9250::valid_who_am_i(), actual: v },
            )
        } else if self.pc == first + 1 && v != 0x48 {
            Next::Failed(
                Error::WhoAmI { expected: crate::regs::ak8963::valid_who_am_i(), actual: v },
            )
        } else {
            let cntl1 = if self.pc == first + 2 {
                v
            } else {
                self.cntl1
            };
            let fuse = Triplet {
                x: if self.pc == first + 5 {
                    v
                } else {
                    self.fuse.x
                },
                y: if self.pc == first + 6 {
                    v
                } else {
                    self.fuse.y
                },
                z: if self.pc == first + 7 {
                    v
                } else {
                    self.fuse.z
                },
            };
            if self.pc >= len(self.kind) - 1 {
                Next::Ready(fuse)
            } else {
                Next::Pending(
                    Stage {
                        pc: (self.pc + 1) as usize,
                        access: Access::start(
                            self.kind,
                            script(self.kind, self.config, cntl1)[self.pc + 1],
                        ),
                        cntl1,
                        fuse,
                        ..self
                    },
                )
            }
        }
    }

    /// What the bus's answer to the due transaction means.
    pub open spec fn spec_advance<E>(self, reply: Result<u16, E>) -> Next<E> {
        match self.access.advance(reply) {
            Progress::Pending(access) => Next::Pending(Stage { access, ..self }),
            Progress::Done(value) => self.spec_completed(value),
            Progress::Failed(e) => Next::Failed(e),
        }
    }

    /// The stage at which bring-up begins.
    #[verifier::when_used_as_spec(spec_start)]
    pub fn start(kind: Kind, config: Config) -> (r: Stage)
        ensures
            r == Self::spec_start(kind, config),
            r.wf(),
    {
        Stage {
            kind,
            config,
            pc: 0,
            access: Access::start(kind, op_at(kind, &config, 0, 0)),
            cntl1: 0,
            fuse: Triplet { x: 0, y: 0, z: 0 },
        }
    }

    /// The bus transaction that is due.
    pub fn request(&self) -> (r: Request)
        ensures
            r == self.access.request(),
    {
        self.access.request()
    }

    /// Takes the completion of the operation at this stage: checks an
    /// identity, keeps what a read returned, and moves on to the next
    /// operation of the script.
    #[verifier::when_used_as_spec(spec_completed)]
    pub fn completed<E>(self, value: Option<u8>) -> (r: Next<E>)
        ensures
            r == self.spec_completed::<E>(value),
    {
        let v = match value {
            Some(v) => v,
            None => 0,
        };
        let first = base(self.kind);
        if self.pc == first && !crate::regs::mpu9250::is_valid_who_am_i(v) {
            Next::Failed(
                Error::WhoAmI { expected: crate::regs::mpu9250::valid_who_am_i(), actual: v },
            )
        } else if self.pc == first + 1 && !crate::regs::ak8963::is_valid_who_am_i(v) {
            Next::Failed(
                Error::WhoAmI { expected: crate::regs::ak8963::valid_who_am_i(), actual: v },
            )
        } else {
            let cntl1 = if self.pc == first + 2 {
                v
            } else {
                self.cntl1
            };
            let fuse = Triplet {
                x: if self.pc == first + 5 {
                    v
                } else {
                    self.fuse.x
                },
                y: if self.pc == first + 6 {
                    v
                } else {
                    self.fuse.y
                },
                z: if self.pc == first + 7 {
                    v
                } else {
                    self.fuse.z
                },
            };
            if self.pc >= len(self.kind) - 1 {
                Next::Ready(fuse)
            } else {
                let pc = self.pc + 1;
                Next::Pending(
                    Stage {
                        kind: self.kind,
                        config: self.config,
                        pc,
                        access: Access::start(self.kind, op_at(self.kind, &self.config, pc, cntl1)),
                        cntl1,
                        fuse,
                    },
                )
            }
        }
    }

    /// Takes the bus's answer to the due transaction.
    #[verifier::when_used_as_spec(spec_advance)]
    pub fn advance<E>(self, reply: Result<u16, E>) -> (r: Next<E>)
        ensures
            r == self.spec_advance(reply),
            self.wf() ==> (r matches Next::Pending(next) ==> next.wf()),
    {
        match self.access.advance(reply) {
            Progress::Pending(access) => Next::Pending(
                Stage {
                    kind: self.kind,
                    config: self.config,
                    pc: self.pc,
                    access,
                    cntl1: self.cntl1,
                    fuse: self.fuse,
                },
            ),
            Progress::Done(value) => self.completed(value),
            Progress::Failed(e) => Next::Failed(e),
        }
    }
}

/// What a completed operation returned: the value of a read, zero otherwise.
pub open spec fn returned(value: Option<u8>) -> u8 {
    match value {
        Some(v) => v,
        None => 0,
    }
}

impl Stage {
    /// The same stage with another state of the operation on its way.
    pub open spec fn with_access(self, access: Access) -> Stage {
        Stage { access, ..self }
    }

    /// What bring-up has come to once the bus has given `replies`, one to
    /// each transaction in turn. Replies past the end of bring-up are not
    /// looked at.
    pub open spec fn run<E>(self, replies: Seq<Result<u16, E>>) -> Next<E>
        decreases replies.len(),
    {
        if replies.len() == 0 {
            Next::Pending(self)
        } else {
            match self.advance(replies[0]) {
                Next::Pending(next) => next.run(replies.drop_first()),
                end => end,
            }
        }
    }

    /// The operations that complete while the bus gives `replies`, in the
    /// order in which they complete, each with what it returned.
    pub open spec fn completions<E>(self, replies: Seq<Result<u16, E>>) -> Seq<(Op, Option<u8>)>
        decreases replies.len(),
    {
        if replies.len() == 0 {
            seq![]
        } else {
            match self.access.advance(replies[0]) {
                Progress::Pending(access) => self.with_access(access).completions(
                    replies.drop_first(),
                ),
                Progress::Done(value) => seq![(self.access.op, value)] + (match self.spec_completed::<
                    E,
                >(value) {
                    Next::Pending(next) => next.completions(replies.drop_first()),
                    _ => seq![],
                }),
                Progress::Failed(_) => seq![],
            }
        }
    }

    /// Only the write that restores `CNTL1` depends on what the read of
    /// `CNTL1` returned.
    pub proof fn lemma_script_restore(kind: Kind, config: Config, a: u8, b: u8, i: int)
        requires
            0 <= i < len(kind),
        ensures
            i != base(kind) + 8 ==> script(kind, config, a)[i] == script(kind, config, b)[i],
            script(kind, config, a)[base(kind) + 8] == Op::AkWrite(AK8963::CNTL1, a),
    {
    }

    /// From any stage of a bring-up that succeeds, the operations that
    /// complete are the rest of the script, in order; both identities were
    /// accepted; and `CNTL1` and the fuse bytes are what the reads returned.
    pub proof fn lemma_rest<E>(self, replies: Seq<Result<u16, E>>) -> (end: (u8, Triplet<u8>))
        requires
            self.wf(),
            self.run(replies) is Ready,
        ensures
            self.run(replies) == Next::<E>::Ready(end.1),
            self.completions(replies).len() == len(self.kind) - self.pc,
            forall|i: int|
                0 <= i < len(self.kind) - self.pc ==> (#[trigger] self.completions(replies)[i]).0
                    == script(self.kind, self.config, end.0)[self.pc + i],
            self.pc <= base(self.kind) ==> ({
                let who = returned(self.completions(replies)[base(self.kind) - self.pc].1);
                who == 0x71 || who == 0x73
            }),
            self.pc <= base(self.kind) + 1 ==> returned(
                self.completions(replies)[base(self.kind) + 1 - self.pc].1,
            ) == 0x48,
            end.0 == (if self.pc <= base(self.kind) + 2 {
                returned(self.completions(replies)[base(self.kind) + 2 - self.pc].1)
            } else {
                self.cntl1
            }),
            end.1.x == (if self.pc <= base(self.kind) + 5 {
                returned(self.completions(replies)[base(self.kind) + 5 - self.pc].1)
            } else {
                self.fuse.x
            }),
            end.1.y == (if self.pc <= base(self.kind) + 6 {
                returned(self.completions(replies)[base(self.kind) + 6 - self.pc].1)
            } else {
                self.fuse.y
            }),
            end.1.z == (if self.pc <= base(self.kind) + 7 {
                returned(self.completions(replies)[base(self.kind) + 7 - self.pc].1)
            } else {
                self.fuse.z
            }),
        decreases replies.len(),
    {
        let rest = replies.drop_first();
        match self.access.advance(replies[0]) {
            Progress::Pending(access) => self.with_access(access).lemma_rest(rest),
            Progress::Done(value) => {
                match self.spec_completed::<E>(value) {
                    Next::Pending(next) => {
                        let end = next.lemma_rest(rest);
                        Self::lemma_script_restore(
                            self.kind,
                            self.config,
                            self.cntl1,
                            end.0,
                            self.pc as int,
                        );
                        end
                    },
                    Next::Ready(fuse) => {
                        let cntl1 = if self.pc == base(self.kind) + 2 {
                            returned(value)
                        } else {
                            self.cntl1
                        };
                        (cntl1, fuse)
                    },
                    Next::Failed(_) => (0, self.fuse),
                }
            },
            Progress::Failed(_) => (0, self.fuse),
        }
    }

    /// Every bring-up that succeeds has completed exactly the operations of
    /// the script, in the script's order, and nothing else. The device's
    /// identity was read and accepted: `WHO_AM_I` returned `0x71` or `0x73`,
    /// `WIA` returned `0x48`. The value written back to `CNTL1` is the one
    /// that was read from it, and the fuse bytes are what `ASAX`, `ASAY` and
    /// `ASAZ` returned.
    pub proof fn law_order<E>(kind: Kind, config: Config, replies: Seq<Result<u16, E>>)
        requires
            Stage::start(kind, config).run(replies) is Ready,
        ensures
            ({
                let log = Stage::start(kind, config).completions(replies);
                let first = base(kind) as int;
                let cntl1 = returned(log[first + 2].1);
                &&& log.len() == len(kind)
                &&& forall|i: int|
                    0 <= i < len(kind) ==> (#[trigger] log[i]).0 == script(kind, config, cntl1)[i]
                &&& returned(log[first].1) == 0x71 || returned(log[first].1) == 0x73
                &&& returned(log[first + 1].1) == 0x48
                &&& Stage::start(kind, config).run(replies) == Next::<E>::Ready(
                    Triplet {
                        x: returned(log[first + 5].1),
                        y: returned(log[first + 6].1),
                        z: returned(log[first + 7].1),
                    },
                )
            }),
    {
        Stage::start(kind, config).lemma_rest(replies);
    }

    /// The transactions that the bus is asked for while it gives `replies`,
    /// in order: one for each reply that bring-up takes.
    pub open spec fn requests<E>(self, replies: Seq<Result<u16, E>>) -> Seq<Request>
        decreases replies.len(),
    {
        if replies.len() == 0 {
            seq![]
        } else {
            seq![self.access.request()] + (match self.advance(replies[0]) {
                Next::Pending(next) => next.requests(replies.drop_first()),
                _ => seq![],
            })
        }
    }

    /// The data byte of a reply; zero for an error of the peripheral.
    pub open spec fn byte_of<E>(reply: Result<u16, E>) -> u8 {
        match reply {
            Ok(word) => crate::spi::low_byte(word),
            Err(_) => 0,
        }
    }

    /// Over I2C every operation is one transaction: from any stage of a
    /// bring-up that succeeds, the bus is asked for the rest of the script,
    /// operation by operation.
    pub proof fn lemma_rest_bypass<E>(self, replies: Seq<Result<u16, E>>) -> (cntl1: u8)
        requires
            self.wf(),
            self.kind == Kind::Bypass,
            self.access == Access::start(Kind::Bypass, self.access.op),
            self.run(replies) is Ready,
        ensures
            replies.len() >= 24 - self.pc,
            self.requests(replies).len() == 24 - self.pc,
            forall|i: int|
                0 <= i < 24 - self.pc ==> (#[trigger] self.requests(replies)[i]) == Access::start(
                    Kind::Bypass,
                    script(Kind::Bypass, self.config, cntl1)[self.pc + i],
                ).request(),
            cntl1 == (if self.pc <= 10 {
                Self::byte_of(replies[10 - self.pc])
            } else {
                self.cntl1
            }),
        decreases replies.len(),
    {
        let rest = replies.drop_first();
        match self.advance(replies[0]) {
            Next::Pending(next) => {
                let cntl1 = next.lemma_rest_bypass(rest);
                Self::lemma_script_restore(
                    Kind::Bypass,
                    self.config,
                    self.cntl1,
                    cntl1,
                    self.pc as int,
                );
                assert(self.requests(replies) =~= seq![self.access.request()] + next.requests(
                    rest,
                ));
                cntl1
            },
            Next::Ready(_) => self.cntl1,
            Next::Failed(_) => 0,
        }
    }

    /// Every bring-up over I2C that succeeds is the same 24 transactions:
    /// those of the script, in order, each operation as the one transaction
    /// that carries it. What is written back to `CNTL1` is the byte that the
    /// eleventh transaction, the read of `CNTL1`, returned.
    pub proof fn law_bypass_transcript<E>(config: Config, replies: Seq<Result<u16, E>>)
        requires
            Stage::start(Kind::Bypass, config).run(replies) is Ready,
        ensures
            replies.len() >= 24,
            Stage::start(Kind::Bypass, config).requests(replies).len() == 24,
            forall|i: int|
                0 <= i < 24 ==> (#[trigger] Stage::start(Kind::Bypass, config).requests(
                    replies,
                )[i]) == Access::start(
                    Kind::Bypass,
                    script(Kind::Bypass, config, Self::byte_of(replies[10]))[i],
                ).request(),
    {
        Stage::start(Kind::Bypass, config).lemma_rest_bypass(replies);
    }

    /// The order that every transport keeps: the MPU-9250 is reset and given
    /// at least 10 ms, the AK8963 is reset, the clock source is selected,
    /// both identities are read, the AK8963 is put in fuse access mode and
    /// given at least 50 ms, the three fuse bytes are read, `CNTL1` is
    /// restored and given at least 20 ms, and the configuration is written.
    pub proof fn law_script_order(kind: Kind, config: Config, cntl1: u8)
        ensures
            ({
                let ops = script(kind, config, cntl1);
                let first = base(kind) as int;
                let reset = (first - if kind == Kind::Spi {
                    6int
                } else {
                    8int
                });
                &&& ops[reset] == Op::MpuWrite(MPU9250::PWR_MGMT_1, 0x80)
                &&& ops[reset + 1] == Op::Delay(10)
                &&& ops[first - 2] == Op::AkWrite(AK8963::CNTL2, 0x01)
                &&& ops[first - 1] == Op::MpuWrite(MPU9250::PWR_MGMT_1, 0x01)
                &&& ops[first] == Op::MpuRead(MPU9250::WHO_AM_I)
                &&& ops[first + 1] == Op::AkRead(AK8963::WIA)
                &&& ops[first + 2] == Op::AkRead(AK8963::CNTL1)
                &&& ops[first + 3] == Op::AkWrite(AK8963::CNTL1, 0x0F)
                &&& ops[first + 4] == Op::Delay(50)
                &&& ops[first + 5] == Op::AkRead(AK8963::ASAX)
                &&& ops[first + 6] == Op::AkRead(AK8963::ASAY)
                &&& ops[first + 7] == Op::AkRead(AK8963::ASAZ)
                &&& ops[first + 8] == Op::AkWrite(AK8963::CNTL1, cntl1)
                &&& ops[first + 9] == Op::Delay(20)
                &&& ops.subrange(first + 10, first + 16) == config.spec_apply()
            }),
    {
    }

    /// Over SPI the AK8963 is powered down before the MPU-9250 is reset, and
    /// slave 0 is armed last, after the configuration.
    pub proof fn law_script_order_spi(config: Config, cntl1: u8)
        ensures
            ({
                let ops = script(Kind::Spi, config, cntl1);
                &&& ops[0] == Op::MpuWrite(MPU9250::USER_CTRL, 0x20)
                &&& ops[1] == Op::MpuWrite(MPU9250::I2C_MST_CTRL, 13)
                &&& ops[2] == Op::AkWrite(AK8963::CNTL1, 0x00)
                &&& ops[3] == Op::MpuWrite(MPU9250::PWR_MGMT_1, 0x80)
                &&& ops[4] == Op::Delay(10)
                &&& ops[5] == Op::MpuWrite(MPU9250::USER_CTRL, 0x30)
                &&& ops[6] == Op::MpuWrite(MPU9250::I2C_MST_CTRL, 13)
                &&& ops[25] == Op::MpuWrite(MPU9250::I2C_SLV0_ADDR, 0x8C)
                &&& ops[26] == Op::MpuWrite(MPU9250::I2C_SLV0_REG, 0x03)
                &&& ops[27] == Op::MpuWrite(MPU9250::I2C_SLV0_CTRL, 0x87)
            }),
    {
    }

    /// Over I2C the AK8963 cannot be reached before bypass is enabled, so it
    /// is powered down after the MPU-9250's reset: the I2C master is
    /// switched off, bypass is enabled, and then the AK8963 is powered down
    /// and given 10 ms.
    pub proof fn law_script_order_bypass(config: Config, cntl1: u8)
        ensures
            ({
                let ops = script(Kind::Bypass, config, cntl1);
                &&& ops[0] == Op::MpuWrite(MPU9250::PWR_MGMT_1, 0x80)
                &&& ops[1] == Op::Delay(10)
                &&& ops[2] == Op::MpuWrite(MPU9250::USER_CTRL, 0x00)
                &&& ops[3] == Op::MpuWrite(MPU9250::INT_PIN_CFG, 0x02)
                &&& ops[4] == Op::AkWrite(AK8963::CNTL1, 0x00)
                &&& ops[5] == Op::Delay(10)
                &&& ops.len() == 24
            }),
    {
    }

    /// Every bring-up over SPI that succeeds has completed, in this order:
    /// the AK8963's power-down, the MPU-9250's reset and a wait of 10 ms, the
    /// AK8963's soft reset, the selection of the clock source, the reads of
    /// both identities, the switch to fuse access and a wait of 50 ms, the
    /// reads of the three fuse bytes, and the write of what was read from
    /// `CNTL1` back to it with a wait of 20 ms.
    pub proof fn law_order_spi<E>(config: Config, replies: Seq<Result<u16, E>>)
        requires
            Stage::start(Kind::Spi, config).run(replies) is Ready,
        ensures
            ({
                let log = Stage::start(Kind::Spi, config).completions(replies);
                &&& log.len() == 28
                &&& log[2].0 == Op::AkWrite(AK8963::CNTL1, 0x00)
                &&& log[3].0 == Op::MpuWrite(MPU9250::PWR_MGMT_1, 0x80)
                &&& log[4].0 == Op::Delay(10)
                &&& log[7].0 == Op::AkWrite(AK8963::CNTL2, 0x01)
                &&& log[8].0 == Op::MpuWrite(MPU9250::PWR_MGMT_1, 0x01)
                &&& log[9].0 == Op::MpuRead(MPU9250::WHO_AM_I)
                &&& log[10].0 == Op::AkRead(AK8963::WIA)
                &&& log[11].0 == Op::AkRead(AK8963::CNTL1)
                &&& log[12].0 == Op::AkWrite(AK8963::CNTL1, 0x0F)
                &&& log[13].0 == Op::Delay(50)
                &&& log[14].0 == Op::AkRead(AK8963::ASAX)
                &&& log[15].0 == Op::AkRead(AK8963::ASAY)
                &&& log[16].0 == Op::AkRead(AK8963::ASAZ)
                &&& log[17].0 == Op::AkWrite(AK8963::CNTL1, returned(log[11].1))
                &&& log[18].0 == Op::Delay(20)
            }),
    {
        Self::law_order(Kind::Spi, config, replies);
        let log = Stage::start(Kind::Spi, config).completions(replies);
        Self::law_script_order(Kind::Spi, config, returned(log[11].1));
        Self::law_script_order_spi(config, returned(log[11].1));
    }

    /// Every bring-up over I2C that succeeds has completed, in this order:
    /// the MPU-9250's reset and a wait of 10 ms, the switch to bypass, the
    /// AK8963's power-down and a wait of 10 ms, the AK8963's soft reset, the
    /// selection of the clock source, the reads of both identities, the
    /// switch to fuse access and a wait of 50 ms, the reads of the three
    /// fuse bytes, and the write of what was read from `CNTL1` back to it
    /// with a wait of 20 ms.
    pub proof fn law_order_bypass<E>(config: Config, replies: Seq<Result<u16, E>>)
        requires
            Stage::start(Kind::Bypass, config).run(replies) is Ready,
        ensures
            ({
                let log = Stage::start(Kind::Bypass, config).completions(replies);
                &&& log.len() == 24
                &&& log[0].0 == Op::MpuWrite(MPU9250::PWR_MGMT_1, 0x80)
                &&& log[1].0 == Op::Delay(10)
                &&& log[2].0 == Op::MpuWrite(MPU9250::USER_CTRL, 0x00)
                &&& log[3].0 == Op::MpuWrite(MPU9250::INT_PIN_CFG, 0x02)
                &&& log[4].0 == Op::AkWrite(AK8963::CNTL1, 0x00)
                &&& log[5].0 == Op::Delay(10)
                &&& log[6].0 == Op::AkWrite(AK8963::CNTL2, 0x01)
                &&& log[7].0 == Op::MpuWrite(MPU9250::PWR_MGMT_1, 0x01)
                &&& log[8].0 == Op::MpuRead(MPU9250::WHO_AM_I)
                &&& log[9].0 == Op::AkRead(AK8963::WIA)
                &&& log[10].0 == Op::AkRead(AK8963::CNTL1)
                &&& log[11].0 == Op::AkWrite(AK8963::CNTL1, 0x0F)
                &&& log[12].0 == Op::Delay(50)
                &&& log[13].0 == Op::AkRead(AK8963::ASAX)
                &&& log[14].0 == Op::AkRead(AK8963::ASAY)
                &&& log[15].0 == Op::AkRead(AK8963::ASAZ)
                &&& log[16].0 == Op::AkWrite(AK8963::CNTL1, returned(log[10].1))
                &&& log[17].0 == Op::Delay(20)
            }),
    {
        Self::law_order(Kind::Bypass, config, replies);
        let log = Stage::start(Kind::Bypass, config).completions(replies);
        Self::law_script_order(Kind::Bypass, config, returned(log[10].1));
        Self::law_script_order_bypass(config, returned(log[10].1));
    }

    /// An identity that is not accepted ends bring-up with the error that
    /// names it: at the read of `WHO_AM_I` every value but `0x71` and
    /// `0x73`, at the read of `WIA` every value but `0x48`.
    pub proof fn law_who_am_i<E>(self, value: u8)
        ensures
            self.pc == base(self.kind) && value != 0x71 && value != 0x73 ==> self.spec_completed::<
                E,
            >(Some(value)) == Next::<E>::Failed(
                Error::WhoAmI { expected: crate::regs::mpu9250::valid_who_am_i(), actual: value },
            ),
            self.pc == base(self.kind) + 1 && value != 0x48 ==> self.spec_completed::<E>(
                Some(value),
            ) == Next::<E>::Failed(
                Error::WhoAmI { expected: crate::regs::ak8963::valid_who_am_i(), actual: value },
            ),
            crate::regs::mpu9250::valid_who_am_i()@ == seq![0x71u8, 0x73u8],
            crate::regs::ak8963::valid_who_am_i()@ == seq![0x48u8],
    {
    }
}

/// A bring-up in progress. It owns the transport, and with it the bus
/// peripheral, until the device is ready; a failed bring-up drops both.
pub struct Bringup<T> {
    transport: T,
    stage: Stage,
}

/// What a bring-up has come to.
pub enum Step<T, E> {
    /// Another transaction is due
    Pending(Bringup<T>),
    /// The device is ready
    Ready(Mpu<T>),
    /// Bring-up failed; the transport is gone
    Failed(Error<E>),
}

impl<T> Bringup<T> {
    /// The transport that the bring-up owns.
    pub closed spec fn spec_transport(&self) -> T {
        self.transport
    }

    /// Where the bring-up stands.
    pub closed spec fn spec_stage(&self) -> Stage {
        self.stage
    }

    /// The transport, to act on the peripheral inside it.
    pub(crate) fn transport_mut(&mut self) -> (r: &mut T)
        ensures
            *r == old(self).spec_transport(),
            final(self).spec_transport() == *final(r),
            final(self).spec_stage() == old(self).spec_stage(),
    {
        &mut self.transport
    }

    /// Where the bring-up stands.
    #[verifier::when_used_as_spec(spec_stage)]
    pub fn stage(&self) -> (r: Stage)
        ensures
            r == self.spec_stage(),
    {
        self.stage
    }

    /// The bus transaction that is due.
    pub fn request(&self) -> (r: Request)
        ensures
            r == self.spec_stage().access.request(),
    {
        self.stage.request()
    }

    /// Takes the bus's answer to the due transaction: the frame that an SPI
    /// transfer captured, the byte that an I2C read returned, anything after
    /// a write or a wait, or the peripheral's error.
    ///
    /// The bring-up moves as its stage does. Once the last operation is
    /// complete the device is formed from the transport, the configuration
    /// and the sensitivity adjustments of the three fuse bytes.
    pub fn advance<E>(self, reply: Result<u16, E>) -> (r: Step<T, E>)
        ensures
            match self.spec_stage().advance(reply) {
                Next::Pending(stage) => r matches Step::Pending(b) && b.spec_stage() == stage
                    && b.spec_transport() == self.spec_transport(),
                Next::Ready(fuse) => r matches Step::Ready(mpu) && mpu.spec_transport()
                    == self.spec_transport() && mpu.spec_handle().matches(
                    &self.spec_stage().config,
                    &Triplet {
                        x: sensitivity(fuse.x),
                        y: sensitivity(fuse.y),
                        z: sensitivity(fuse.z),
                    },
                ),
                Next::Failed(e) => r matches Step::Failed(f) && f == e,
            },
    {
        let config = self.stage.config;
        match self.stage.advance(reply) {
            Next::Pending(stage) => Step::Pending(Bringup { transport: self.transport, stage }),
            Next::Ready(fuse) => {
                let adjustments = Triplet {
                    x: sensitivity(fuse.x),
                    y: sensitivity(fuse.y),
                    z: sensitivity(fuse.z),
                };
                Step::Ready(Mpu::new(self.transport, &config, &adjustments))
            },
            Next::Failed(e) => Step::Failed(e),
        }
    }
}

impl<T: Transport> Bringup<T> {
    /// Begins the bring-up of the device behind `transport`.
    pub fn new(transport: T, config: &Config) -> (r: Self)
        ensures
            r.spec_transport() == transport,
            r.spec_stage() == Stage::start(transport.spec_kind(), *config),
    {
        let kind = transport.kind();
        Bringup { transport, stage: Stage::start(kind, *config) }
    }
}

} // verus!
