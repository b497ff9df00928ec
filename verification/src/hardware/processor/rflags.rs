#![allow(non_snake_case)]
use vstd::prelude::*;

verus! {

/// The flags register.
#[derive(Clone, Copy, PartialEq, Eq, Structural, Debug)]
pub struct RFlags {
    /// Carry (bit 0).
    pub CF: u8,
    /// Parity (bit 2).
    pub PF: u8,
    /// Auxiliary carry (bit 4).
    pub AF: u8,
    /// Zero (bit 6).
    pub ZF: u8,
    /// Sign (bit 7).
    pub SF: u8,
    /// Trap (bit 8).
    pub TF: u8,
    /// Interrupt enable (bit 9).
    pub IF: u8,
    /// Direction (bit 10).
    pub DF: u8,
    /// Overflow (bit 11).
    pub OF: u8,
    /// I/O privilege level (bits 12..=13).
    pub IOPL: u8,
    /// Nested task (bit 14).
    pub NT: u8,
    /// Resume (bit 16).
    pub RF: u8,
    /// Virtual-8086 mode (bit 17).
    pub VM: u8,
    /// Alignment check (bit 18).
    pub AC: u8,
    /// Virtual interrupt (bit 19).
    pub VIF: u8,
    /// Virtual interrupt pending (bit 20).
    pub VIP: u8,
    /// Identification (bit 21).
    pub ID: u8,
}

impl RFlags {
    /// The register's value: each field masked to its width at its bit position, with the reserved bits 0x2 set.
    pub open spec fn value(self) -> u64 {
        ((self.CF as u64) & 0x1) | (((self.PF as u64) & 0x1) << 2u64) | (((self.AF as u64) & 0x1) << 4u64) | (((self.ZF as u64) & 0x1) << 6u64) | (((self.SF as u64) & 0x1) << 7u64) | (((self.TF as u64) & 0x1) << 8u64) | (((self.IF as u64) & 0x1) << 9u64) | (((self.DF as u64) & 0x1) << 10u64) | (((self.OF as u64) & 0x1) << 11u64) | (((self.IOPL as u64) & 0x3) << 12u64) | (((self.NT as u64) & 0x1) << 14u64) | (((self.RF as u64) & 0x1) << 16u64) | (((self.VM as u64) & 0x1) << 17u64) | (((self.AC as u64) & 0x1) << 18u64) | (((self.VIF as u64) & 0x1) << 19u64) | (((self.VIP as u64) & 0x1) << 20u64) | (((self.ID as u64) & 0x1) << 21u64) | 0x2u64
    }

    /// The fields of the register value `v`; bits that no field covers are ignored.
    pub open spec fn decode(v: u64) -> Self {
        RFlags {
            CF: ((v & 0x1) as u8),
            PF: (((v >> 2u64) & 0x1) as u8),
            AF: (((v >> 4u64) & 0x1) as u8),
            ZF: (((v >> 6u64) & 0x1) as u8),
            SF: (((v >> 7u64) & 0x1) as u8),
            TF: (((v >> 8u64) & 0x1) as u8),
            IF: (((v >> 9u64) & 0x1) as u8),
            DF: (((v >> 10u64) & 0x1) as u8),
            OF: (((v >> 11u64) & 0x1) as u8),
            IOPL: (((v >> 12u64) & 0x3) as u8),
            NT: (((v >> 14u64) & 0x1) as u8),
            RF: (((v >> 16u64) & 0x1) as u8),
            VM: (((v >> 17u64) & 0x1) as u8),
            AC: (((v >> 18u64) & 0x1) as u8),
            VIF: (((v >> 19u64) & 0x1) as u8),
            VIP: (((v >> 20u64) & 0x1) as u8),
            ID: (((v >> 21u64) & 0x1) as u8),
        }
    }

    /// Whether every field fits its width.
    pub open spec fn fits(self) -> bool {
        self.CF <= 0x1 && self.PF <= 0x1 && self.AF <= 0x1 && self.ZF <= 0x1 && self.SF <= 0x1 && self.TF <= 0x1 && self.IF <= 0x1 && self.DF <= 0x1 && self.OF <= 0x1 && self.IOPL <= 0x3 && self.NT <= 0x1 && self.RF <= 0x1 && self.VM <= 0x1 && self.AC <= 0x1 && self.VIF <= 0x1 && self.VIP <= 0x1 && self.ID <= 0x1
    }

    /// All fields zero.
    pub open spec fn zero() -> Self {
        RFlags { CF: 0, PF: 0, AF: 0, ZF: 0, SF: 0, TF: 0, IF: 0, DF: 0, OF: 0, IOPL: 0, NT: 0, RF: 0, VM: 0, AC: 0, VIF: 0, VIP: 0, ID: 0 }
    }

    pub fn to_u64(&self) -> (v: u64)
        ensures
            v == self.value(),
    {
        ((self.CF as u64) & 0x1) | (((self.PF as u64) & 0x1) << 2u64) | (((self.AF as u64) & 0x1) << 4u64) | (((self.ZF as u64) & 0x1) << 6u64) | (((self.SF as u64) & 0x1) << 7u64) | (((self.TF as u64) & 0x1) << 8u64) | (((self.IF as u64) & 0x1) << 9u64) | (((self.DF as u64) & 0x1) << 10u64) | (((self.OF as u64) & 0x1) << 11u64) | (((self.IOPL as u64) & 0x3) << 12u64) | (((self.NT as u64) & 0x1) << 14u64) | (((self.RF as u64) & 0x1) << 16u64) | (((self.VM as u64) & 0x1) << 17u64) | (((self.AC as u64) & 0x1) << 18u64) | (((self.VIF as u64) & 0x1) << 19u64) | (((self.VIP as u64) & 0x1) << 20u64) | (((self.ID as u64) & 0x1) << 21u64) | 0x2u64
    }

    /// Loads every field from the register value `v`.
    pub fn from_u64(&mut self, v: u64)
        ensures
            *final(self) == Self::decode(v),
    {
        *self = RFlags {
            CF: ((v & 0x1) as u8),
            PF: (((v >> 2u64) & 0x1) as u8),
            AF: (((v >> 4u64) & 0x1) as u8),
            ZF: (((v >> 6u64) & 0x1) as u8),
            SF: (((v >> 7u64) & 0x1) as u8),
            TF: (((v >> 8u64) & 0x1) as u8),
            IF: (((v >> 9u64) & 0x1) as u8),
            DF: (((v >> 10u64) & 0x1) as u8),
            OF: (((v >> 11u64) & 0x1) as u8),
            IOPL: (((v >> 12u64) & 0x3) as u8),
            NT: (((v >> 14u64) & 0x1) as u8),
            RF: (((v >> 16u64) & 0x1) as u8),
            VM: (((v >> 17u64) & 0x1) as u8),
            AC: (((v >> 18u64) & 0x1) as u8),
            VIF: (((v >> 19u64) & 0x1) as u8),
            VIP: (((v >> 20u64) & 0x1) as u8),
            ID: (((v >> 21u64) & 0x1) as u8),
        };
    }

    proof fn lemma_bits(CF: u8, PF: u8, AF: u8, ZF: u8, SF: u8, TF: u8, IF: u8, DF: u8, OF: u8, IOPL: u8, NT: u8, RF: u8, VM: u8, AC: u8, VIF: u8, VIP: u8, ID: u8, v: u64)
        by (bit_vector)
        ensures
            (((((CF as u64) & 0x1) | (((PF as u64) & 0x1) << 2u64) | (((AF as u64) & 0x1) << 4u64) | (((ZF as u64) & 0x1) << 6u64) | (((SF as u64) & 0x1) << 7u64) | (((TF as u64) & 0x1) << 8u64) | (((IF as u64) & 0x1) << 9u64) | (((DF as u64) & 0x1) << 10u64) | (((OF as u64) & 0x1) << 11u64) | (((IOPL as u64) & 0x3) << 12u64) | (((NT as u64) & 0x1) << 14u64) | (((RF as u64) & 0x1) << 16u64) | (((VM as u64) & 0x1) << 17u64) | (((AC as u64) & 0x1) << 18u64) | (((VIF as u64) & 0x1) << 19u64) | (((VIP as u64) & 0x1) << 20u64) | (((ID as u64) & 0x1) << 21u64) | 0x2u64) & 0x1) as u8) == CF & 0x1,
            ((((((CF as u64) & 0x1) | (((PF as u64) & 0x1) << 2u64) | (((AF as u64) & 0x1) << 4u64) | (((ZF as u64) & 0x1) << 6u64) | (((SF as u64) & 0x1) << 7u64) | (((TF as u64) & 0x1) << 8u64) | (((IF as u64) & 0x1) << 9u64) | (((DF as u64) & 0x1) << 10u64) | (((OF as u64) & 0x1) << 11u64) | (((IOPL as u64) & 0x3) << 12u64) | (((NT as u64) & 0x1) << 14u64) | (((RF as u64) & 0x1) << 16u64) | (((VM as u64) & 0x1) << 17u64) | (((AC as u64) & 0x1) << 18u64) | (((VIF as u64) & 0x1) << 19u64) | (((VIP as u64) & 0x1) << 20u64) | (((ID as u64) & 0x1) << 21u64) | 0x2u64) >> 2u64) & 0x1) as u8) == PF & 0x1,
            ((((((CF as u64) & 0x1) | (((PF as u64) & 0x1) << 2u64) | (((AF as u64) & 0x1) << 4u64) | (((ZF as u64) & 0x1) << 6u64) | (((SF as u64) & 0x1) << 7u64) | (((TF as u64) & 0x1) << 8u64) | (((IF as u64) & 0x1) << 9u64) | (((DF as u64) & 0x1) << 10u64) | (((OF as u64) & 0x1) << 11u64) | (((IOPL as u64) & 0x3) << 12u64) | (((NT as u64) & 0x1) << 14u64) | (((RF as u64) & 0x1) << 16u64) | (((VM as u64) & 0x1) << 17u64) | (((AC as u64) & 0x1) << 18u64) | (((VIF as u64) & 0x1) << 19u64) | (((VIP as u64) & 0x1) << 20u64) | (((ID as u64) & 0x1) << 21u64) | 0x2u64) >> 4u64) & 0x1) as u8) == AF & 0x1,
            ((((((CF as u64) & 0x1) | (((PF as u64) & 0x1) << 2u64) | (((AF as u64) & 0x1) << 4u64) | (((ZF as u64) & 0x1) << 6u64) | (((SF as u64) & 0x1) << 7u64) | (((TF as u64) & 0x1) << 8u64) | (((IF as u64) & 0x1) << 9u64) | (((DF as u64) & 0x1) << 10u64) | (((OF as u64) & 0x1) << 11u64) | (((IOPL as u64) & 0x3) << 12u64) | (((NT as u64) & 0x1) << 14u64) | (((RF as u64) & 0x1) << 16u64) | (((VM as u64) & 0x1) << 17u64) | (((AC as u64) & 0x1) << 18u64) | (((VIF as u64) & 0x1) << 19u64) | (((VIP as u64) & 0x1) << 20u64) | (((ID as u64) & 0x1) << 21u64) | 0x2u64) >> 6u64) & 0x1) as u8) == ZF & 0x1,
            ((((((CF as u64) & 0x1) | (((PF as u64) & 0x1) << 2u64) | (((AF as u64) & 0x1) << 4u64) | (((ZF as u64) & 0x1) << 6u64) | (((SF as u64) & 0x1) << 7u64) | (((TF as u64) & 0x1) << 8u64) | (((IF as u64) & 0x1) << 9u64) | (((DF as u64) & 0x1) << 10u64) | (((OF as u64) & 0x1) << 11u64) | (((IOPL as u64) & 0x3) << 12u64) | (((NT as u64) & 0x1) << 14u64) | (((RF as u64) & 0x1) << 16u64) | (((VM as u64) & 0x1) << 17u64) | (((AC as u64) & 0x1) << 18u64) | (((VIF as u64) & 0x1) << 19u64) | (((VIP as u64) & 0x1) << 20u64) | (((ID as u64) & 0x1) << 21u64) | 0x2u64) >> 7u64) & 0x1) as u8) == SF & 0x1,
            ((((((CF as u64) & 0x1) | (((PF as u64) & 0x1) << 2u64) | (((AF as u64) & 0x1) << 4u64) | (((ZF as u64) & 0x1) << 6u64) | (((SF as u64) & 0x1) << 7u64) | (((TF as u64) & 0x1) << 8u64) | (((IF as u64) & 0x1) << 9u64) | (((DF as u64) & 0x1) << 10u64) | (((OF as u64) & 0x1) << 11u64) | (((IOPL as u64) & 0x3) << 12u64) | (((NT as u64) & 0x1) << 14u64) | (((RF as u64) & 0x1) << 16u64) | (((VM as u64) & 0x1) << 17u64) | (((AC as u64) & 0x1) << 18u64) | (((VIF as u64) & 0x1) << 19u64) | (((VIP as u64) & 0x1) << 20u64) | (((ID as u64) & 0x1) << 21u64) | 0x2u64) >> 8u64) & 0x1) as u8) == TF & 0x1,
            ((((((CF as u64) & 0x1) | (((PF as u64) & 0x1) << 2u64) | (((AF as u64) & 0x1) << 4u64) | (((ZF as u64) & 0x1) << 6u64) | (((SF as u64) & 0x1) << 7u64) | (((TF as u64) & 0x1) << 8u64) | (((IF as u64) & 0x1) << 9u64) | (((DF as u64) & 0x1) << 10u64) | (((OF as u64) & 0x1) << 11u64) | (((IOPL as u64) & 0x3) << 12u64) | (((NT as u64) & 0x1) << 14u64) | (((RF as u64) & 0x1) << 16u64) | (((VM as u64) & 0x1) << 17u64) | (((AC as u64) & 0x1) << 18u64) | (((VIF as u64) & 0x1) << 19u64) | (((VIP as u64) & 0x1) << 20u64) | (((ID as u64) & 0x1) << 21u64) | 0x2u64) >> 9u64) & 0x1) as u8) == IF & 0x1,
            ((((((CF as u64) & 0x1) | (((PF as u64) & 0x1) << 2u64) | (((AF as u64) & 0x1) << 4u64) | (((ZF as u64) & 0x1) << 6u64) | (((SF as u64) & 0x1) << 7u64) | (((TF as u64) & 0x1) << 8u64) | (((IF as u64) & 0x1) << 9u64) | (((DF as u64) & 0x1) << 10u64) | (((OF as u64) & 0x1) << 11u64) | (((IOPL as u64) & 0x3) << 12u64) | (((NT as u64) & 0x1) << 14u64) | (((RF as u64) & 0x1) << 16u64) | (((VM as u64) & 0x1) << 17u64) | (((AC as u64) & 0x1) << 18u64) | (((VIF as u64) & 0x1) << 19u64) | (((VIP as u64) & 0x1) << 20u64) | (((ID as u64) & 0x1) << 21u64) | 0x2u64) >> 10u64) & 0x1) as u8) == DF & 0x1,
            ((((((CF as u64) & 0x1) | (((PF as u64) & 0x1) << 2u64) | (((AF as u64) & 0x1) << 4u64) | (((ZF as u64) & 0x1) << 6u64) | (((SF as u64) & 0x1) << 7u64) | (((TF as u64) & 0x1) << 8u64) | (((IF as u64) & 0x1) << 9u64) | (((DF as u64) & 0x1) << 10u64) | (((OF as u64) & 0x1) << 11u64) | (((IOPL as u64) & 0x3) << 12u64) | (((NT as u64) & 0x1) << 14u64) | (((RF as u64) & 0x1) << 16u64) | (((VM as u64) & 0x1) << 17u64) | (((AC as u64) & 0x1) << 18u64) | (((VIF as u64) & 0x1) << 19u64) | (((VIP as u64) & 0x1) << 20u64) | (((ID as u64) & 0x1) << 21u64) | 0x2u64) >> 11u64) & 0x1) as u8) == OF & 0x1,
            ((((((CF as u64) & 0x1) | (((PF as u64) & 0x1) << 2u64) | (((AF as u64) & 0x1) << 4u64) | (((ZF as u64) & 0x1) << 6u64) | (((SF as u64) & 0x1) << 7u64) | (((TF as u64) & 0x1) << 8u64) | (((IF as u64) & 0x1) << 9u64) | (((DF as u64) & 0x1) << 10u64) | (((OF as u64) & 0x1) << 11u64) | (((IOPL as u64) & 0x3) << 12u64) | (((NT as u64) & 0x1) << 14u64) | (((RF as u64) & 0x1) << 16u64) | (((VM as u64) & 0x1) << 17u64) | (((AC as u64) & 0x1) << 18u64) | (((VIF as u64) & 0x1) << 19u64) | (((VIP as u64) & 0x1) << 20u64) | (((ID as u64) & 0x1) << 21u64) | 0x2u64) >> 12u64) & 0x3) as u8) == IOPL & 0x3,
            ((((((CF as u64) & 0x1) | (((PF as u64) & 0x1) << 2u64) | (((AF as u64) & 0x1) << 4u64) | (((ZF as u64) & 0x1) << 6u64) | (((SF as u64) & 0x1) << 7u64) | (((TF as u64) & 0x1) << 8u64) | (((IF as u64) & 0x1) << 9u64) | (((DF as u64) & 0x1) << 10u64) | (((OF as u64) & 0x1) << 11u64) | (((IOPL as u64) & 0x3) << 12u64) | (((NT as u64) & 0x1) << 14u64) | (((RF as u64) & 0x1) << 16u64) | (((VM as u64) & 0x1) << 17u64) | (((AC as u64) & 0x1) << 18u64) | (((VIF as u64) & 0x1) << 19u64) | (((VIP as u64) & 0x1) << 20u64) | (((ID as u64) & 0x1) << 21u64) | 0x2u64) >> 14u64) & 0x1) as u8) == NT & 0x1,
            ((((((CF as u64) & 0x1) | (((PF as u64) & 0x1) << 2u64) | (((AF as u64) & 0x1) << 4u64) | (((ZF as u64) & 0x1) << 6u64) | (((SF as u64) & 0x1) << 7u64) | (((TF as u64) & 0x1) << 8u64) | (((IF as u64) & 0x1) << 9u64) | (((DF as u64) & 0x1) << 10u64) | (((OF as u64) & 0x1) << 11u64) | (((IOPL as u64) & 0x3) << 12u64) | (((NT as u64) & 0x1) << 14u64) | (((RF as u64) & 0x1) << 16u64) | (((VM as u64) & 0x1) << 17u64) | (((AC as u64) & 0x1) << 18u64) | (((VIF as u64) & 0x1) << 19u64) | (((VIP as u64) & 0x1) << 20u64) | (((ID as u64) & 0x1) << 21u64) | 0x2u64) >> 16u64) & 0x1) as u8) == RF & 0x1,
            ((((((CF as u64) & 0x1) | (((PF as u64) & 0x1) << 2u64) | (((AF as u64) & 0x1) << 4u64) | (((ZF as u64) & 0x1) << 6u64) | (((SF as u64) & 0x1) << 7u64) | (((TF as u64) & 0x1) << 8u64) | (((IF as u64) & 0x1) << 9u64) | (((DF as u64) & 0x1) << 10u64) | (((OF as u64) & 0x1) << 11u64) | (((IOPL as u64) & 0x3) << 12u64) | (((NT as u64) & 0x1) << 14u64) | (((RF as u64) & 0x1) << 16u64) | (((VM as u64) & 0x1) << 17u64) | (((AC as u64) & 0x1) << 18u64) | (((VIF as u64) & 0x1) << 19u64) | (((VIP as u64) & 0x1) << 20u64) | (((ID as u64) & 0x1) << 21u64) | 0x2u64) >> 17u64) & 0x1) as u8) == VM & 0x1,
            ((((((CF as u64) & 0x1) | (((PF as u64) & 0x1) << 2u64) | (((AF as u64) & 0x1) << 4u64) | (((ZF as u64) & 0x1) << 6u64) | (((SF as u64) & 0x1) << 7u64) | (((TF as u64) & 0x1) << 8u64) | (((IF as u64) & 0x1) << 9u64) | (((DF as u64) & 0x1) << 10u64) | (((OF as u64) & 0x1) << 11u64) | (((IOPL as u64) & 0x3) << 12u64) | (((NT as u64) & 0x1) << 14u64) | (((RF as u64) & 0x1) << 16u64) | (((VM as u64) & 0x1) << 17u64) | (((AC as u64) & 0x1) << 18u64) | (((VIF as u64) & 0x1) << 19u64) | (((VIP as u64) & 0x1) << 20u64) | (((ID as u64) & 0x1) << 21u64) | 0x2u64) >> 18u64) & 0x1) as u8) == AC & 0x1,
            ((((((CF as u64) & 0x1) | (((PF as u64) & 0x1) << 2u64) | (((AF as u64) & 0x1) << 4u64) | (((ZF as u64) & 0x1) << 6u64) | (((SF as u64) & 0x1) << 7u64) | (((TF as u64) & 0x1) << 8u64) | (((IF as u64) & 0x1) << 9u64) | (((DF as u64) & 0x1) << 10u64) | (((OF as u64) & 0x1) << 11u64) | (((IOPL as u64) & 0x3) << 12u64) | (((NT as u64) & 0x1) << 14u64) | (((RF as u64) & 0x1) << 16u64) | (((VM as u64) & 0x1) << 17u64) | (((AC as u64) & 0x1) << 18u64) | (((VIF as u64) & 0x1) << 19u64) | (((VIP as u64) & 0x1) << 20u64) | (((ID as u64) & 0x1) << 21u64) | 0x2u64) >> 19u64) & 0x1) as u8) == VIF & 0x1,
            ((((((CF as u64) & 0x1) | (((PF as u64) & 0x1) << 2u64) | (((AF as u64) & 0x1) << 4u64) | (((ZF as u64) & 0x1) << 6u64) | (((SF as u64) & 0x1) << 7u64) | (((TF as u64) & 0x1) << 8u64) | (((IF as u64) & 0x1) << 9u64) | (((DF as u64) & 0x1) << 10u64) | (((OF as u64) & 0x1) << 11u64) | (((IOPL as u64) & 0x3) << 12u64) | (((NT as u64) & 0x1) << 14u64) | (((RF as u64) & 0x1) << 16u64) | (((VM as u64) & 0x1) << 17u64) | (((AC as u64) & 0x1) << 18u64) | (((VIF as u64) & 0x1) << 19u64) | (((VIP as u64) & 0x1) << 20u64) | (((ID as u64) & 0x1) << 21u64) | 0x2u64) >> 20u64) & 0x1) as u8) == VIP & 0x1,
            ((((((CF as u64) & 0x1) | (((PF as u64) & 0x1) << 2u64) | (((AF as u64) & 0x1) << 4u64) | (((ZF as u64) & 0x1) << 6u64) | (((SF as u64) & 0x1) << 7u64) | (((TF as u64) & 0x1) << 8u64) | (((IF as u64) & 0x1) << 9u64) | (((DF as u64) & 0x1) << 10u64) | (((OF as u64) & 0x1) << 11u64) | (((IOPL as u64) & 0x3) << 12u64) | (((NT as u64) & 0x1) << 14u64) | (((RF as u64) & 0x1) << 16u64) | (((VM as u64) & 0x1) << 17u64) | (((AC as u64) & 0x1) << 18u64) | (((VIF as u64) & 0x1) << 19u64) | (((VIP as u64) & 0x1) << 20u64) | (((ID as u64) & 0x1) << 21u64) | 0x2u64) >> 21u64) & 0x1) as u8) == ID & 0x1,
            CF <= 0x1 ==> (CF & 0x1) == CF,
            ((v & 0x1) as u8) <= 0x1,
            PF <= 0x1 ==> (PF & 0x1) == PF,
            (((v >> 2u64) & 0x1) as u8) <= 0x1,
            AF <= 0x1 ==> (AF & 0x1) == AF,
            (((v >> 4u64) & 0x1) as u8) <= 0x1,
            ZF <= 0x1 ==> (ZF & 0x1) == ZF,
            (((v >> 6u64) & 0x1) as u8) <= 0x1,
            SF <= 0x1 ==> (SF & 0x1) == SF,
            (((v >> 7u64) & 0x1) as u8) <= 0x1,
            TF <= 0x1 ==> (TF & 0x1) == TF,
            (((v >> 8u64) & 0x1) as u8) <= 0x1,
            IF <= 0x1 ==> (IF & 0x1) == IF,
            (((v >> 9u64) & 0x1) as u8) <= 0x1,
            DF <= 0x1 ==> (DF & 0x1) == DF,
            (((v >> 10u64) & 0x1) as u8) <= 0x1,
            OF <= 0x1 ==> (OF & 0x1) == OF,
            (((v >> 11u64) & 0x1) as u8) <= 0x1,
            IOPL <= 0x3 ==> (IOPL & 0x3) == IOPL,
            (((v >> 12u64) & 0x3) as u8) <= 0x3,
            NT <= 0x1 ==> (NT & 0x1) == NT,
            (((v >> 14u64) & 0x1) as u8) <= 0x1,
            RF <= 0x1 ==> (RF & 0x1) == RF,
            (((v >> 16u64) & 0x1) as u8) <= 0x1,
            VM <= 0x1 ==> (VM & 0x1) == VM,
            (((v >> 17u64) & 0x1) as u8) <= 0x1,
            AC <= 0x1 ==> (AC & 0x1) == AC,
            (((v >> 18u64) & 0x1) as u8) <= 0x1,
            VIF <= 0x1 ==> (VIF & 0x1) == VIF,
            (((v >> 19u64) & 0x1) as u8) <= 0x1,
            VIP <= 0x1 ==> (VIP & 0x1) == VIP,
            (((v >> 20u64) & 0x1) as u8) <= 0x1,
            ID <= 0x1 ==> (ID & 0x1) == ID,
            (((v >> 21u64) & 0x1) as u8) <= 0x1,
            ((((((v & 0x1) as u8) as u64) & 0x1)) | ((((((v >> 2u64) & 0x1) as u8) as u64) & 0x1) << 2u64) | ((((((v >> 4u64) & 0x1) as u8) as u64) & 0x1) << 4u64) | ((((((v >> 6u64) & 0x1) as u8) as u64) & 0x1) << 6u64) | ((((((v >> 7u64) & 0x1) as u8) as u64) & 0x1) << 7u64) | ((((((v >> 8u64) & 0x1) as u8) as u64) & 0x1) << 8u64) | ((((((v >> 9u64) & 0x1) as u8) as u64) & 0x1) << 9u64) | ((((((v >> 10u64) & 0x1) as u8) as u64) & 0x1) << 10u64) | ((((((v >> 11u64) & 0x1) as u8) as u64) & 0x1) << 11u64) | ((((((v >> 12u64) & 0x3) as u8) as u64) & 0x3) << 12u64) | ((((((v >> 14u64) & 0x1) as u8) as u64) & 0x1) << 14u64) | ((((((v >> 16u64) & 0x1) as u8) as u64) & 0x1) << 16u64) | ((((((v >> 17u64) & 0x1) as u8) as u64) & 0x1) << 17u64) | ((((((v >> 18u64) & 0x1) as u8) as u64) & 0x1) << 18u64) | ((((((v >> 19u64) & 0x1) as u8) as u64) & 0x1) << 19u64) | ((((((v >> 20u64) & 0x1) as u8) as u64) & 0x1) << 20u64) | ((((((v >> 21u64) & 0x1) as u8) as u64) & 0x1) << 21u64) | 0x2u64) == (v & 0x3f7fd5) | 0x2,
    {
    }

    /// Decoding the value of a register whose fields fit gives back that register, and
    /// encoding a decoded value keeps exactly the bits that the fields cover (and sets the reserved ones).
    pub proof fn law_value_roundtrip(self, v: u64)
        ensures
            self.fits() ==> Self::decode(self.value()) == self,
            Self::decode(v).value() == (v & 0x3f7fd5) | 0x2,
            Self::decode(v).fits(),
    {
        Self::lemma_bits(self.CF, self.PF, self.AF, self.ZF, self.SF, self.TF, self.IF, self.DF, self.OF, self.IOPL, self.NT, self.RF, self.VM, self.AC, self.VIF, self.VIP, self.ID, v);
        let d = Self::decode(v);
        Self::lemma_bits(d.CF, d.PF, d.AF, d.ZF, d.SF, d.TF, d.IF, d.DF, d.OF, d.IOPL, d.NT, d.RF, d.VM, d.AC, d.VIF, d.VIP, d.ID, v);
    }
}

impl Default for RFlags {
    fn default() -> (r: Self)
        ensures
            r == Self::zero(),
    {
        RFlags { CF: 0, PF: 0, AF: 0, ZF: 0, SF: 0, TF: 0, IF: 0, DF: 0, OF: 0, IOPL: 0, NT: 0, RF: 0, VM: 0, AC: 0, VIF: 0, VIP: 0, ID: 0 }
    }
}

impl RFlags {
    pub fn is_carry(&self) -> (b: bool)
        ensures
            b == (self.CF != 0),
    {
        self.CF != 0
    }

    pub fn is_parity(&self) -> (b: bool)
        ensures
            b == (self.PF != 0),
    {
        self.PF != 0
    }

    pub fn is_zero(&self) -> (b: bool)
        ensures
            b == (self.ZF != 0),
    {
        self.ZF != 0
    }

    pub fn is_sign(&self) -> (b: bool)
        ensures
            b == (self.SF != 0),
    {
        self.SF != 0
    }

    pub fn is_trap(&self) -> (b: bool)
        ensures
            b == (self.TF != 0),
    {
        self.TF != 0
    }

    pub fn is_interrupt(&self) -> (b: bool)
        ensures
            b == (self.IF != 0),
    {
        self.IF != 0
    }

    pub fn is_direction(&self) -> (b: bool)
        ensures
            b == (self.DF != 0),
    {
        self.DF != 0
    }

    pub fn is_overflow(&self) -> (b: bool)
        ensures
            b == (self.OF != 0),
    {
        self.OF != 0
    }

    pub fn is_nesttask(&self) -> (b: bool)
        ensures
            b == (self.NT != 0),
    {
        self.NT != 0
    }

    pub fn get_iopl(&self) -> (pl: u8)
        ensures
            pl == self.IOPL,
    {
        self.IOPL
    }

    pub fn set_carry(&mut self, f: bool)
        ensures
            *final(self) == (RFlags { CF: if f { 1 } else { 0 }, ..*old(self) }),
    {
        self.CF = if f { 1 } else { 0 };
    }

    pub fn set_parity(&mut self, f: bool)
        ensures
            *final(self) == (RFlags { PF: if f { 1 } else { 0 }, ..*old(self) }),
    {
        self.PF = if f { 1 } else { 0 };
    }

    pub fn set_zero(&mut self, f: bool)
        ensures
            *final(self) == (RFlags { ZF: if f { 1 } else { 0 }, ..*old(self) }),
    {
        self.ZF = if f { 1 } else { 0 };
    }

    pub fn set_sign(&mut self, f: bool)
        ensures
            *final(self) == (RFlags { SF: if f { 1 } else { 0 }, ..*old(self) }),
    {
        self.SF = if f { 1 } else { 0 };
    }

    pub fn set_trap(&mut self, f: bool)
        ensures
            *final(self) == (RFlags { TF: if f { 1 } else { 0 }, ..*old(self) }),
    {
        self.TF = if f { 1 } else { 0 };
    }

    pub fn set_interrupt(&mut self, f: bool)
        ensures
            *final(self) == (RFlags { IF: if f { 1 } else { 0 }, ..*old(self) }),
    {
        self.IF = if f { 1 } else { 0 };
    }

    pub fn set_direction(&mut self, f: bool)
        ensures
            *final(self) == (RFlags { DF: if f { 1 } else { 0 }, ..*old(self) }),
    {
        self.DF = if f { 1 } else { 0 };
    }

    pub fn set_overflow(&mut self, f: bool)
        ensures
            *final(self) == (RFlags { OF: if f { 1 } else { 0 }, ..*old(self) }),
    {
        self.OF = if f { 1 } else { 0 };
    }

    pub fn set_nesttask(&mut self, f: bool)
        ensures
            *final(self) == (RFlags { NT: if f { 1 } else { 0 }, ..*old(self) }),
    {
        self.NT = if f { 1 } else { 0 };
    }

    pub fn set_iopl(&mut self, pl: u8)
        ensures
            *final(self) == (RFlags { IOPL: pl, ..*old(self) }),
    {
        self.IOPL = pl;
    }
}

} // verus!
