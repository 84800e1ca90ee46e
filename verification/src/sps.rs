//! The Sequence Parameter Set and its nested VUI and HRD structures.
//!
//! Each syntax structure has a `parse_*` specification function giving the
//! meaning of the bits — which fields are present, their decoded values, and
//! the exact position where the structure ends — and an executable decoder
//! proved to return precisely that result.

use vstd::prelude::*;

verus! {

use crate::rbsp::RbspBitReader;
use crate::rbsp::BitReaderError;
use crate::rbsp::parse_bits;
use crate::rbsp::parse_bool;
use crate::rbsp::parse_ue;
use crate::rbsp::parse_se;
use crate::rbsp::lemma_bits_val_bound;
use vstd::arithmetic::power2::lemma2_to64;
use crate::pps::ParamSetId;
use crate::pps::ParamSetIdError;
use crate::nal::NalHeader;
use crate::nal::UnitType;
use crate::nal::spec_unit_type;
use crate::context::Context;

/// An error from decoding a Sequence Parameter Set.
#[derive(Debug, Clone, PartialEq)]
pub enum SpsError {
    /// `bit_depth_luma_minus8` or `bit_depth_chroma_minus8` was greater than
    /// the maximum legal value, 6.
    BitDepthOutOfRange(u32),
    /// The buffer was exhausted mid-field, or an Exp-Golomb codeword was
    /// malformed.
    ReaderError(BitReaderError),
    PicOrderCnt(PicOrderCntError),
    /// `log2_max_frame_num_minus4` must be between 0 and 12.
    Log2MaxFrameNumMinus4OutOfRange(u32),
    BadSeqParamSetId(ParamSetIdError),
    /// A field in the bitstream had a value too large for a subsequent
    /// calculation.
    FieldValueTooLarge { name: &'static str, value: u32 },
    /// The frame-cropping values are too large vs. the coded picture size.
    CroppingError(FrameCropping),
}

/// An error from decoding the picture-order-count part of an SPS.
#[derive(Debug, Clone, Copy, PartialEq)]
pub enum PicOrderCntError {
    InvalidPicOrderCountType(u32),
    ReaderError(BitReaderError),
    /// `log2_max_pic_order_cnt_lsb_minus4` must be between 0 and 12.
    Log2MaxPicOrderCntLsbMinus4OutOfRange(u32),
}

/// The semantic profile denoted by a profile-indication code; codes without a
/// named profile are preserved in `Unknown`.
#[derive(Debug, Clone, Copy, PartialEq, Eq)]
pub enum Profile {
    Unknown(u8),
    Baseline,
    Main,
    High,
    High422,
    High10,
    High444,
    Extended,
    ScalableBase,
    ScalableHigh,
    MultiviewHigh,
    StereoHigh,
    MFCDepthHigh,
    MultiviewDepthHigh,
    EnhancedMultiviewDepthHigh,
}

/// The profile denoted by a profile-indication code.
pub open spec fn spec_profile(code: u8) -> Profile {
    if code == 66 {
        Profile::Baseline
    } else if code == 77 {
        Profile::Main
    } else if code == 100 {
        Profile::High
    } else if code == 122 {
        Profile::High422
    } else if code == 110 {
        Profile::High10
    } else if code == 144 {
        Profile::High444
    } else if code == 88 {
        Profile::Extended
    } else if code == 83 {
        Profile::ScalableBase
    } else if code == 86 {
        Profile::ScalableHigh
    } else if code == 118 {
        Profile::MultiviewHigh
    } else if code == 128 {
        Profile::StereoHigh
    } else if code == 135 {
        Profile::MFCDepthHigh
    } else if code == 138 {
        Profile::MultiviewDepthHigh
    } else if code == 139 {
        Profile::EnhancedMultiviewDepthHigh
    } else {
        Profile::Unknown(code)
    }
}

/// The profile-indication code of a profile.
pub open spec fn spec_profile_code(p: Profile) -> u8 {
    match p {
        Profile::Baseline => 66,
        Profile::Main => 77,
        Profile::High => 100,
        Profile::High422 => 122,
        Profile::High10 => 110,
        Profile::High444 => 144,
        Profile::Extended => 88,
        Profile::ScalableBase => 83,
        Profile::ScalableHigh => 86,
        Profile::MultiviewHigh => 118,
        Profile::StereoHigh => 128,
        Profile::MFCDepthHigh => 135,
        Profile::MultiviewDepthHigh => 138,
        Profile::EnhancedMultiviewDepthHigh => 139,
        Profile::Unknown(code) => code,
    }
}

/// Law: decoding a profile-indication code and re-encoding it restores the
/// code, for every code — named profiles and unknown codes alike.
pub proof fn lemma_profile_code_round_trip(code: u8)
    ensures
        spec_profile_code(spec_profile(code)) == code,
{
}

impl Profile {
    pub fn from_profile_idc(profile_idc: ProfileIdc) -> (p: Profile)
        ensures
            p == spec_profile(profile_idc.0),
    {
        match profile_idc.0 {
            66 => Profile::Baseline,
            77 => Profile::Main,
            100 => Profile::High,
            122 => Profile::High422,
            110 => Profile::High10,
            144 => Profile::High444,
            88 => Profile::Extended,
            83 => Profile::ScalableBase,
            86 => Profile::ScalableHigh,
            118 => Profile::MultiviewHigh,
            128 => Profile::StereoHigh,
            135 => Profile::MFCDepthHigh,
            138 => Profile::MultiviewDepthHigh,
            139 => Profile::EnhancedMultiviewDepthHigh,
            other => Profile::Unknown(other),
        }
    }

    pub fn profile_idc(&self) -> (code: u8)
        ensures
            code == spec_profile_code(*self),
    {
        match *self {
            Profile::Baseline => 66,
            Profile::Main => 77,
            Profile::High => 100,
            Profile::High422 => 122,
            Profile::High10 => 110,
            Profile::High444 => 144,
            Profile::Extended => 88,
            Profile::ScalableBase => 83,
            Profile::ScalableHigh => 86,
            Profile::MultiviewHigh => 118,
            Profile::StereoHigh => 128,
            Profile::MFCDepthHigh => 135,
            Profile::MultiviewDepthHigh => 138,
            Profile::EnhancedMultiviewDepthHigh => 139,
            Profile::Unknown(profile_idc) => profile_idc,
        }
    }
}

/// The second byte of an SPS: six named constraint flags and two bits that are
/// reserved as zero in conforming streams.
#[derive(Debug, Clone, Copy, PartialEq, Eq, Structural)]
pub struct ConstraintFlags(pub u8);

impl ConstraintFlags {
    pub open spec fn spec_flag0(self) -> bool {
        self.0 & 0b1000_0000 != 0
    }

    pub open spec fn spec_flag1(self) -> bool {
        self.0 & 0b0100_0000 != 0
    }

    pub open spec fn spec_flag2(self) -> bool {
        self.0 & 0b0010_0000 != 0
    }

    pub open spec fn spec_flag3(self) -> bool {
        self.0 & 0b0001_0000 != 0
    }

    pub open spec fn spec_flag4(self) -> bool {
        self.0 & 0b0000_1000 != 0
    }

    pub open spec fn spec_flag5(self) -> bool {
        self.0 & 0b0000_0100 != 0
    }

    pub open spec fn spec_reserved_zero_two_bits(self) -> u8 {
        self.0 & 0b0000_0011
    }

    pub fn flag0(self) -> (b: bool)
        ensures
            b == self.spec_flag0(),
    {
        self.0 & 0b1000_0000 != 0
    }

    pub fn flag1(self) -> (b: bool)
        ensures
            b == self.spec_flag1(),
    {
        self.0 & 0b0100_0000 != 0
    }

    pub fn flag2(self) -> (b: bool)
        ensures
            b == self.spec_flag2(),
    {
        self.0 & 0b0010_0000 != 0
    }

    pub fn flag3(self) -> (b: bool)
        ensures
            b == self.spec_flag3(),
    {
        self.0 & 0b0001_0000 != 0
    }

    pub fn flag4(self) -> (b: bool)
        ensures
            b == self.spec_flag4(),
    {
        self.0 & 0b0000_1000 != 0
    }

    pub fn flag5(self) -> (b: bool)
        ensures
            b == self.spec_flag5(),
    {
        self.0 & 0b0000_0100 != 0
    }

    pub fn reserved_zero_two_bits(self) -> (v: u8)
        ensures
            v == self.spec_reserved_zero_two_bits(),
    {
        self.0 & 0b0000_0011
    }
}

/// The semantic level denoted by a level-indication code; code 11 is
/// disambiguated between level 1b and level 1.1 by constraint flag 3.
#[derive(Debug, Clone, Copy, PartialEq, Eq)]
#[allow(non_camel_case_types)]
pub enum Level {
    Unknown(u8),
    L1,
    L1_b,
    L1_1,
    L1_2,
    L1_3,
    L2,
    L2_1,
    L2_2,
    L3,
    L3_1,
    L3_2,
    L4,
    L4_1,
    L4_2,
    L5,
    L5_1,
    L5_2,
}

/// The level denoted by a level-indication code, given constraint flag 3.
pub open spec fn spec_level(flag3: bool, level_idc: u8) -> Level {
    if level_idc == 10 {
        Level::L1
    } else if level_idc == 11 {
        if flag3 {
            Level::L1_b
        } else {
            Level::L1_1
        }
    } else if level_idc == 12 {
        Level::L1_2
    } else if level_idc == 13 {
        Level::L1_3
    } else if level_idc == 20 {
        Level::L2
    } else if level_idc == 21 {
        Level::L2_1
    } else if level_idc == 22 {
        Level::L2_2
    } else if level_idc == 30 {
        Level::L3
    } else if level_idc == 31 {
        Level::L3_1
    } else if level_idc == 32 {
        Level::L3_2
    } else if level_idc == 40 {
        Level::L4
    } else if level_idc == 41 {
        Level::L4_1
    } else if level_idc == 42 {
        Level::L4_2
    } else if level_idc == 50 {
        Level::L5
    } else if level_idc == 51 {
        Level::L5_1
    } else if level_idc == 52 {
        Level::L5_2
    } else {
        Level::Unknown(level_idc)
    }
}

/// The level-indication code of a level; 1b and 1.1 share the code 11.
pub open spec fn spec_level_code(l: Level) -> u8 {
    match l {
        Level::L1 => 10,
        Level::L1_1 => 11,
        Level::L1_b => 11,
        Level::L1_2 => 12,
        Level::L1_3 => 13,
        Level::L2 => 20,
        Level::L2_1 => 21,
        Level::L2_2 => 22,
        Level::L3 => 30,
        Level::L3_1 => 31,
        Level::L3_2 => 32,
        Level::L4 => 40,
        Level::L4_1 => 41,
        Level::L4_2 => 42,
        Level::L5 => 50,
        Level::L5_1 => 51,
        Level::L5_2 => 52,
        Level::Unknown(level_idc) => level_idc,
    }
}

/// Law: decoding a level-indication code and re-encoding it restores the code,
/// whichever way constraint flag 3 disambiguates code 11.
pub proof fn lemma_level_code_round_trip(flag3: bool, level_idc: u8)
    ensures
        spec_level_code(spec_level(flag3, level_idc)) == level_idc,
{
}

impl Level {
    pub fn from_constraint_flags_and_level_idc(constraint_flags: ConstraintFlags, level_idc: u8) -> (l:
        Level)
        ensures
            l == spec_level(constraint_flags.spec_flag3(), level_idc),
    {
        match level_idc {
            10 => Level::L1,
            11 => {
                if constraint_flags.flag3() {
                    Level::L1_b
                } else {
                    Level::L1_1
                }
            },
            12 => Level::L1_2,
            13 => Level::L1_3,
            20 => Level::L2,
            21 => Level::L2_1,
            22 => Level::L2_2,
            30 => Level::L3,
            31 => Level::L3_1,
            32 => Level::L3_2,
            40 => Level::L4,
            41 => Level::L4_1,
            42 => Level::L4_2,
            50 => Level::L5,
            51 => Level::L5_1,
            52 => Level::L5_2,
            _ => Level::Unknown(level_idc),
        }
    }

    pub fn level_idc(&self) -> (code: u8)
        ensures
            code == spec_level_code(*self),
    {
        match *self {
            Level::L1 => 10,
            Level::L1_1 | Level::L1_b => 11,
            Level::L1_2 => 12,
            Level::L1_3 => 13,
            Level::L2 => 20,
            Level::L2_1 => 21,
            Level::L2_2 => 22,
            Level::L3 => 30,
            Level::L3_1 => 31,
            Level::L3_2 => 32,
            Level::L4 => 40,
            Level::L4_1 => 41,
            Level::L4_2 => 42,
            Level::L5 => 50,
            Level::L5_1 => 51,
            Level::L5_2 => 52,
            Level::Unknown(level_idc) => level_idc,
        }
    }
}

/// The chroma sampling structure of the stream; idc codes above 3 are
/// preserved in `Invalid`.
#[derive(Debug, Clone, Copy, PartialEq, Eq)]
pub enum ChromaFormat {
    Monochrome,
    YUV420,
    YUV422,
    YUV444,
    Invalid(u32),
}

/// The chroma format denoted by a `chroma_format_idc` value.
pub open spec fn spec_chroma_format(idc: u32) -> ChromaFormat {
    if idc == 0 {
        ChromaFormat::Monochrome
    } else if idc == 1 {
        ChromaFormat::YUV420
    } else if idc == 2 {
        ChromaFormat::YUV422
    } else if idc == 3 {
        ChromaFormat::YUV444
    } else {
        ChromaFormat::Invalid(idc)
    }
}

impl ChromaFormat {
    pub fn from_chroma_format_idc(chroma_format_idc: u32) -> (f: ChromaFormat)
        ensures
            f == spec_chroma_format(chroma_format_idc),
    {
        match chroma_format_idc {
            0 => ChromaFormat::Monochrome,
            1 => ChromaFormat::YUV420,
            2 => ChromaFormat::YUV422,
            3 => ChromaFormat::YUV444,
            _ => ChromaFormat::Invalid(chroma_format_idc),
        }
    }
}

/// A raw profile-indication value.
#[derive(Debug, Clone, Copy, PartialEq, Eq, Structural)]
pub struct ProfileIdc(pub u8);

/// Whether a profile-indication code signals the presence of explicit chroma
/// information in the SPS.
pub open spec fn spec_has_chroma_info(code: u8) -> bool {
    code == 100 || code == 110 || code == 122 || code == 244 || code == 44 || code == 83 || code
        == 86
}

impl ProfileIdc {
    pub fn has_chroma_info(self) -> (b: bool)
        ensures
            b == spec_has_chroma_info(self.0),
    {
        match self.0 {
            100 | 110 | 122 | 244 | 44 | 83 | 86 => true,
            _ => false,
        }
    }
}

/// The `Option` whose content is the view of `o`'s content.
pub open spec fn opt_view<T: View>(o: Option<T>) -> Option<T::V> {
    match o {
        Some(x) => Some(x@),
        None => None,
    }
}

/// Truncated remainder by 256, as Rust's `%` computes it on signed integers.
pub open spec fn trunc_mod_256(a: int) -> int {
    if a >= 0 {
        a % 256
    } else {
        -((-a) % 256)
    }
}

/// End position of a scaling list of `count` entries starting at `p`, carrying
/// the running `last_scale` / `next_scale` state: while `next` is non-zero each
/// entry reads a signed Exp-Golomb delta; once `next` reaches zero no further
/// bits belong to the list.
pub open spec fn parse_scaling_list(d: Seq<u8>, p: nat, count: nat, last: int, next: int) -> Result<
    nat,
    BitReaderError,
>
    decreases count,
{
    if count == 0 {
        Ok(p)
    } else if next != 0 {
        match parse_se(d, p) {
            Ok((delta, p1)) => {
                let n2 = trunc_mod_256(last + delta + 256);
                let nv = if n2 == 0 {
                    last
                } else {
                    n2
                };
                parse_scaling_list(d, p1, (count - 1) as nat, nv, n2)
            },
            Err(e) => Err(e),
        }
    } else {
        parse_scaling_list(d, p, (count - 1) as nat, last, 0)
    }
}

/// A scaling list's bits are consumed to keep the reader aligned; its decoded
/// content is not retained.
#[derive(Debug, Clone, PartialEq, Eq)]
pub struct ScalingList {}

impl ScalingList {
    pub fn read(r: &mut RbspBitReader, size: u8) -> (res: Result<ScalingList, BitReaderError>)
        requires
            old(r).wf(),
        ensures
            final(r).data@ == old(r).data@,
            final(r).wf(),
            match res {
                Ok(_) => parse_scaling_list(old(r).data@, old(r).pos as nat, size as nat, 8, 8)
                    == Ok::<nat, BitReaderError>(final(r).pos as nat),
                Err(e) => parse_scaling_list(old(r).data@, old(r).pos as nat, size as nat, 8, 8)
                    == Err::<nat, BitReaderError>(e),
            },
    {
        let ghost d = old(r).data@;
        let ghost p0 = old(r).pos as nat;
        let mut last_scale: i64 = 8;
        let mut next_scale: i64 = 8;
        let mut j: u8 = 0;
        while j < size
            invariant
                d == old(r).data@,
                p0 == old(r).pos as nat,
                r.data@ == d,
                r.wf(),
                j <= size,
                -256 < last_scale < 256,
                -256 < next_scale < 256,
                parse_scaling_list(d, p0, size as nat, 8, 8) == parse_scaling_list(
                    d,
                    r.pos as nat,
                    (size - j) as nat,
                    last_scale as int,
                    next_scale as int,
                ),
            decreases size - j,
        {
            if next_scale != 0 {
                let delta = match r.read_se() {
                    Ok(v) => v,
                    Err(e) => {
                        return Err(e);
                    },
                };
                let t: i64 = last_scale + delta as i64 + 256;
                let m: i64 = if t >= 0 {
                    ((t as u64) % 256) as i64
                } else {
                    -((((-t) as u64) % 256) as i64)
                };
                next_scale = m;
            }
            let new_value = if next_scale == 0 {
                last_scale
            } else {
                next_scale
            };
            last_scale = new_value;
            j = j + 1;
        }
        Ok(ScalingList {  })
    }
}

/// End position of the `seq_scaling_matrix` syntax: one presence flag per list
/// (twelve lists for 4:4:4 chroma, eight otherwise), each present list read as
/// a scaling list of 16 entries (the first six) or 64 entries (the rest).
pub open spec fn parse_seq_scaling_matrix(d: Seq<u8>, p: nat, i: nat, count: nat) -> Result<
    nat,
    BitReaderError,
>
    decreases count - i,
{
    if i >= count {
        Ok(p)
    } else {
        match parse_bool(d, p) {
            Ok((present, p1)) => {
                if present {
                    let size: nat = if i < 6 {
                        16
                    } else {
                        64
                    };
                    match parse_scaling_list(d, p1, size, 8, 8) {
                        Ok(p2) => parse_seq_scaling_matrix(d, p2, i + 1, count),
                        Err(e) => Err(e),
                    }
                } else {
                    parse_seq_scaling_matrix(d, p1, i + 1, count)
                }
            },
            Err(e) => Err(e),
        }
    }
}

/// The scaling-matrix placeholder: the matrix's bits are consumed for
/// alignment, but its semantic content is discarded.
#[derive(Debug, Clone, PartialEq, Eq)]
pub struct SeqScalingMatrix {}

impl Default for SeqScalingMatrix {
    fn default() -> (r: Self)
        ensures
            r == (SeqScalingMatrix {  }),
    {
        SeqScalingMatrix {  }
    }
}

impl SeqScalingMatrix {
    pub fn read(r: &mut RbspBitReader, chroma_format_idc: u32) -> (res: Result<
        SeqScalingMatrix,
        BitReaderError,
    >)
        requires
            old(r).wf(),
        ensures
            final(r).data@ == old(r).data@,
            final(r).wf(),
            match res {
                Ok(_) => parse_seq_scaling_matrix(
                    old(r).data@,
                    old(r).pos as nat,
                    0,
                    if chroma_format_idc == 3 {
                        12
                    } else {
                        8
                    },
                ) == Ok::<nat, BitReaderError>(final(r).pos as nat),
                Err(e) => parse_seq_scaling_matrix(
                    old(r).data@,
                    old(r).pos as nat,
                    0,
                    if chroma_format_idc == 3 {
                        12
                    } else {
                        8
                    },
                ) == Err::<nat, BitReaderError>(e),
            },
    {
        let ghost d = old(r).data@;
        let ghost p0 = old(r).pos as nat;
        let count: u8 = if chroma_format_idc == 3 {
            12
        } else {
            8
        };
        let mut i: u8 = 0;
        while i < count
            invariant
                d == old(r).data@,
                p0 == old(r).pos as nat,
                r.data@ == d,
                r.wf(),
                i <= count,
                count == if chroma_format_idc == 3 {
                    12u8
                } else {
                    8u8
                },
                parse_seq_scaling_matrix(d, p0, 0, count as nat) == parse_seq_scaling_matrix(
                    d,
                    r.pos as nat,
                    i as nat,
                    count as nat,
                ),
            decreases count - i,
        {
            let seq_scaling_list_present_flag = match r.read_bool() {
                Ok(b) => b,
                Err(e) => {
                    return Err(e);
                },
            };
            if seq_scaling_list_present_flag {
                let size: u8 = if i < 6 {
                    16
                } else {
                    64
                };
                match ScalingList::read(r, size) {
                    Ok(_) => {},
                    Err(e) => {
                        return Err(e);
                    },
                }
            }
            i = i + 1;
        }
        Ok(SeqScalingMatrix {  })
    }
}

/// Result of the `bit_depth_luma_minus8` / `bit_depth_chroma_minus8` fields: an
/// unsigned Exp-Golomb value that must not exceed 6 (8- to 14-bit samples).
pub open spec fn parse_bit_depth(d: Seq<u8>, p: nat) -> Result<(u8, nat), SpsError> {
    match parse_ue(d, p) {
        Ok((v, p1)) => {
            if v > 6 {
                Err(SpsError::BitDepthOutOfRange(v as u32))
            } else {
                Ok((v as u8, p1))
            }
        },
        Err(e) => Err(SpsError::ReaderError(e)),
    }
}

/// End position of the optional scaling-matrix syntax: a presence flag, then
/// the matrix itself if the flag is set.
pub open spec fn parse_scaling_matrix_opt(d: Seq<u8>, p: nat, idc: nat) -> Result<nat, SpsError> {
    match parse_bool(d, p) {
        Ok((present, p1)) => {
            if present {
                match parse_seq_scaling_matrix(
                    d,
                    p1,
                    0,
                    if idc == 3 {
                        12
                    } else {
                        8
                    },
                ) {
                    Ok(p2) => Ok(p2),
                    Err(e) => Err(SpsError::ReaderError(e)),
                }
            } else {
                Ok(p1)
            }
        },
        Err(e) => Err(SpsError::ReaderError(e)),
    }
}

/// Result of the chroma-information part of an SPS.  Profiles that do not
/// signal chroma information contribute no bits and take the 4:2:0 defaults.
pub open spec fn parse_chroma_info(d: Seq<u8>, p: nat, profile_idc: ProfileIdc) -> Result<
    (ChromaInfo, nat),
    SpsError,
> {
    if spec_has_chroma_info(profile_idc.0) {
        match parse_ue(d, p) {
            Ok((idc, p1)) => {
                let sep_r = if idc == 3 {
                    parse_bool(d, p1)
                } else {
                    Ok((false, p1))
                };
                match sep_r {
                    Ok((sep, p2)) => match parse_bit_depth(d, p2) {
                        Ok((bdl, p3)) => match parse_bit_depth(d, p3) {
                            Ok((bdc, p4)) => match parse_bool(d, p4) {
                                Ok((qp, p5)) => match parse_scaling_matrix_opt(d, p5, idc) {
                                    Ok(p6) => Ok(
                                        (
                                            ChromaInfo {
                                                chroma_format: spec_chroma_format(idc as u32),
                                                separate_colour_plane_flag: sep,
                                                bit_depth_luma_minus8: bdl,
                                                bit_depth_chroma_minus8: bdc,
                                                qpprime_y_zero_transform_bypass_flag: qp,
                                                scaling_matrix: SeqScalingMatrix {  },
                                            },
                                            p6,
                                        ),
                                    ),
                                    Err(e) => Err(e),
                                },
                                Err(e) => Err(SpsError::ReaderError(e)),
                            },
                            Err(e) => Err(e),
                        },
                        Err(e) => Err(e),
                    },
                    Err(e) => Err(SpsError::ReaderError(e)),
                }
            },
            Err(e) => Err(SpsError::ReaderError(e)),
        }
    } else {
        Ok(
            (
                ChromaInfo {
                    chroma_format: ChromaFormat::YUV420,
                    separate_colour_plane_flag: false,
                    bit_depth_luma_minus8: 0,
                    bit_depth_chroma_minus8: 0,
                    qpprime_y_zero_transform_bypass_flag: false,
                    scaling_matrix: SeqScalingMatrix {  },
                },
                p,
            ),
        )
    }
}

/// The chroma-related fields of an SPS.
#[derive(Debug, Clone, PartialEq)]
pub struct ChromaInfo {
    pub chroma_format: ChromaFormat,
    pub separate_colour_plane_flag: bool,
    pub bit_depth_luma_minus8: u8,
    pub bit_depth_chroma_minus8: u8,
    pub qpprime_y_zero_transform_bypass_flag: bool,
    pub scaling_matrix: SeqScalingMatrix,
}

impl ChromaInfo {
    pub fn read(r: &mut RbspBitReader, profile_idc: ProfileIdc) -> (res: Result<
        ChromaInfo,
        SpsError,
    >)
        requires
            old(r).wf(),
        ensures
            final(r).data@ == old(r).data@,
            final(r).wf(),
            match res {
                Ok(v) => parse_chroma_info(old(r).data@, old(r).pos as nat, profile_idc) == Ok::<
                    (ChromaInfo, nat),
                    SpsError,
                >((v, final(r).pos as nat)),
                Err(e) => parse_chroma_info(old(r).data@, old(r).pos as nat, profile_idc) == Err::<
                    (ChromaInfo, nat),
                    SpsError,
                >(e),
            },
    {
        if profile_idc.has_chroma_info() {
            let chroma_format_idc = match r.read_ue() {
                Ok(v) => v,
                Err(e) => {
                    return Err(SpsError::ReaderError(e));
                },
            };
            let separate_colour_plane_flag = if chroma_format_idc == 3 {
                match r.read_bool() {
                    Ok(b) => b,
                    Err(e) => {
                        return Err(SpsError::ReaderError(e));
                    },
                }
            } else {
                false
            };
            let bit_depth_luma_minus8 = match Self::read_bit_depth_minus8(r) {
                Ok(v) => v,
                Err(e) => {
                    return Err(e);
                },
            };
            let bit_depth_chroma_minus8 = match Self::read_bit_depth_minus8(r) {
                Ok(v) => v,
                Err(e) => {
                    return Err(e);
                },
            };
            let qpprime_y_zero_transform_bypass_flag = match r.read_bool() {
                Ok(b) => b,
                Err(e) => {
                    return Err(SpsError::ReaderError(e));
                },
            };
            let scaling_matrix = match Self::read_scaling_matrix(r, chroma_format_idc) {
                Ok(m) => m,
                Err(e) => {
                    return Err(e);
                },
            };
            Ok(
                ChromaInfo {
                    chroma_format: ChromaFormat::from_chroma_format_idc(chroma_format_idc),
                    separate_colour_plane_flag,
                    bit_depth_luma_minus8,
                    bit_depth_chroma_minus8,
                    qpprime_y_zero_transform_bypass_flag,
                    scaling_matrix,
                },
            )
        } else {
            Ok(
                ChromaInfo {
                    chroma_format: ChromaFormat::YUV420,
                    separate_colour_plane_flag: false,
                    bit_depth_luma_minus8: 0,
                    bit_depth_chroma_minus8: 0,
                    qpprime_y_zero_transform_bypass_flag: false,
                    scaling_matrix: SeqScalingMatrix {  },
                },
            )
        }
    }

    pub fn read_bit_depth_minus8(r: &mut RbspBitReader) -> (res: Result<u8, SpsError>)
        requires
            old(r).wf(),
        ensures
            final(r).data@ == old(r).data@,
            final(r).wf(),
            match res {
                Ok(v) => parse_bit_depth(old(r).data@, old(r).pos as nat) == Ok::<
                    (u8, nat),
                    SpsError,
                >((v, final(r).pos as nat)),
                Err(e) => parse_bit_depth(old(r).data@, old(r).pos as nat) == Err::<
                    (u8, nat),
                    SpsError,
                >(e),
            },
    {
        let value = match r.read_ue() {
            Ok(v) => v,
            Err(e) => {
                return Err(SpsError::ReaderError(e));
            },
        };
        if value > 6 {
            Err(SpsError::BitDepthOutOfRange(value))
        } else {
            Ok(value as u8)
        }
    }

    pub fn read_scaling_matrix(r: &mut RbspBitReader, chroma_format_idc: u32) -> (res: Result<
        SeqScalingMatrix,
        SpsError,
    >)
        requires
            old(r).wf(),
        ensures
            final(r).data@ == old(r).data@,
            final(r).wf(),
            match res {
                Ok(_) => parse_scaling_matrix_opt(
                    old(r).data@,
                    old(r).pos as nat,
                    chroma_format_idc as nat,
                ) == Ok::<nat, SpsError>(final(r).pos as nat),
                Err(e) => parse_scaling_matrix_opt(
                    old(r).data@,
                    old(r).pos as nat,
                    chroma_format_idc as nat,
                ) == Err::<nat, SpsError>(e),
            },
    {
        let scaling_matrix_present_flag = match r.read_bool() {
            Ok(b) => b,
            Err(e) => {
                return Err(SpsError::ReaderError(e));
            },
        };
        if scaling_matrix_present_flag {
            match SeqScalingMatrix::read(r, chroma_format_idc) {
                Ok(m) => Ok(m),
                Err(e) => Err(SpsError::ReaderError(e)),
            }
        } else {
            Ok(SeqScalingMatrix {  })
        }
    }
}

/// Result of a run of `n` signed Exp-Golomb codewords starting at `p`.
pub open spec fn parse_se_list(d: Seq<u8>, p: nat, n: nat) -> Result<
    (Seq<i32>, nat),
    BitReaderError,
>
    decreases n,
{
    if n == 0 {
        Ok((Seq::empty(), p))
    } else {
        match parse_se(d, p) {
            Ok((v, p1)) => match parse_se_list(d, p1, (n - 1) as nat) {
                Ok((rest, p2)) => Ok((seq![v as i32] + rest, p2)),
                Err(e) => Err(e),
            },
            Err(e) => Err(e),
        }
    }
}

/// Result of the per-frame offset list of picture-order-count type 1: a count,
/// then that many signed offsets.
pub open spec fn parse_offsets_for_ref_frame(d: Seq<u8>, p: nat) -> Result<
    (Seq<i32>, nat),
    PicOrderCntError,
> {
    match parse_ue(d, p) {
        Ok((n, p1)) => match parse_se_list(d, p1, n) {
            Ok(pair) => Ok(pair),
            Err(e) => Err(PicOrderCntError::ReaderError(e)),
        },
        Err(e) => Err(PicOrderCntError::ReaderError(e)),
    }
}

/// Result of the `log2_max_pic_order_cnt_lsb_minus4` field, bounded to
/// `[0, 12]`.
pub open spec fn parse_log2_max_pic_order_cnt_lsb(d: Seq<u8>, p: nat) -> Result<
    (u8, nat),
    PicOrderCntError,
> {
    match parse_ue(d, p) {
        Ok((v, p1)) => {
            if v > 12 {
                Err(PicOrderCntError::Log2MaxPicOrderCntLsbMinus4OutOfRange(v as u32))
            } else {
                Ok((v as u8, p1))
            }
        },
        Err(e) => Err(PicOrderCntError::ReaderError(e)),
    }
}

/// Result of the picture-order-count syntax: a type discriminant that must be
/// 0, 1 or 2, then the fields that type carries.
pub open spec fn parse_pic_order_cnt(d: Seq<u8>, p: nat) -> Result<
    (PicOrderCntTypeView, nat),
    PicOrderCntError,
> {
    match parse_ue(d, p) {
        Ok((ty, p1)) => {
            if ty == 0 {
                match parse_log2_max_pic_order_cnt_lsb(d, p1) {
                    Ok((v, p2)) => Ok(
                        (PicOrderCntTypeView::TypeZero { log2_max_pic_order_cnt_lsb_minus4: v }, p2),
                    ),
                    Err(e) => Err(e),
                }
            } else if ty == 1 {
                match parse_bool(d, p1) {
                    Ok((zero_flag, p2)) => match parse_se(d, p2) {
                        Ok((non_ref, p3)) => match parse_se(d, p3) {
                            Ok((top_bottom, p4)) => match parse_offsets_for_ref_frame(d, p4) {
                                Ok((offsets, p5)) => Ok(
                                    (
                                        PicOrderCntTypeView::TypeOne {
                                            delta_pic_order_always_zero_flag: zero_flag,
                                            offset_for_non_ref_pic: non_ref as i32,
                                            offset_for_top_to_bottom_field: top_bottom as i32,
                                            offsets_for_ref_frame: offsets,
                                        },
                                        p5,
                                    ),
                                ),
                                Err(e) => Err(e),
                            },
                            Err(e) => Err(PicOrderCntError::ReaderError(e)),
                        },
                        Err(e) => Err(PicOrderCntError::ReaderError(e)),
                    },
                    Err(e) => Err(PicOrderCntError::ReaderError(e)),
                }
            } else if ty == 2 {
                Ok((PicOrderCntTypeView::TypeTwo, p1))
            } else {
                Err(PicOrderCntError::InvalidPicOrderCountType(ty as u32))
            }
        },
        Err(e) => Err(PicOrderCntError::ReaderError(e)),
    }
}

/// How picture order counts are derived; the discriminant must be 0, 1 or 2.
#[derive(Debug, Clone, PartialEq)]
pub enum PicOrderCntType {
    TypeZero { log2_max_pic_order_cnt_lsb_minus4: u8 },
    TypeOne {
        delta_pic_order_always_zero_flag: bool,
        offset_for_non_ref_pic: i32,
        offset_for_top_to_bottom_field: i32,
        offsets_for_ref_frame: Vec<i32>,
    },
    TypeTwo,
}

/// The mathematical image of `PicOrderCntType`, with the offset list as a
/// sequence.
pub enum PicOrderCntTypeView {
    TypeZero { log2_max_pic_order_cnt_lsb_minus4: u8 },
    TypeOne {
        delta_pic_order_always_zero_flag: bool,
        offset_for_non_ref_pic: i32,
        offset_for_top_to_bottom_field: i32,
        offsets_for_ref_frame: Seq<i32>,
    },
    TypeTwo,
}

impl View for PicOrderCntType {
    type V = PicOrderCntTypeView;

    open spec fn view(&self) -> PicOrderCntTypeView {
        match self {
            PicOrderCntType::TypeZero { log2_max_pic_order_cnt_lsb_minus4 } => {
                PicOrderCntTypeView::TypeZero {
                    log2_max_pic_order_cnt_lsb_minus4: *log2_max_pic_order_cnt_lsb_minus4,
                }
            },
            PicOrderCntType::TypeOne {
                delta_pic_order_always_zero_flag,
                offset_for_non_ref_pic,
                offset_for_top_to_bottom_field,
                offsets_for_ref_frame,
            } => {
                PicOrderCntTypeView::TypeOne {
                    delta_pic_order_always_zero_flag: *delta_pic_order_always_zero_flag,
                    offset_for_non_ref_pic: *offset_for_non_ref_pic,
                    offset_for_top_to_bottom_field: *offset_for_top_to_bottom_field,
                    offsets_for_ref_frame: offsets_for_ref_frame@,
                }
            },
            PicOrderCntType::TypeTwo => PicOrderCntTypeView::TypeTwo,
        }
    }
}

impl PicOrderCntType {
    pub fn read(r: &mut RbspBitReader) -> (res: Result<PicOrderCntType, PicOrderCntError>)
        requires
            old(r).wf(),
        ensures
            final(r).data@ == old(r).data@,
            final(r).wf(),
            match res {
                Ok(v) => parse_pic_order_cnt(old(r).data@, old(r).pos as nat) == Ok::<
                    (PicOrderCntTypeView, nat),
                    PicOrderCntError,
                >((v@, final(r).pos as nat)),
                Err(e) => parse_pic_order_cnt(old(r).data@, old(r).pos as nat) == Err::<
                    (PicOrderCntTypeView, nat),
                    PicOrderCntError,
                >(e),
            },
    {
        let pic_order_cnt_type = match r.read_ue() {
            Ok(v) => v,
            Err(e) => {
                return Err(PicOrderCntError::ReaderError(e));
            },
        };
        if pic_order_cnt_type == 0 {
            match Self::read_log2_max_pic_order_cnt_lsb_minus4(r) {
                Ok(v) => Ok(PicOrderCntType::TypeZero { log2_max_pic_order_cnt_lsb_minus4: v }),
                Err(e) => Err(e),
            }
        } else if pic_order_cnt_type == 1 {
            let delta_pic_order_always_zero_flag = match r.read_bool() {
                Ok(b) => b,
                Err(e) => {
                    return Err(PicOrderCntError::ReaderError(e));
                },
            };
            let offset_for_non_ref_pic = match r.read_se() {
                Ok(v) => v,
                Err(e) => {
                    return Err(PicOrderCntError::ReaderError(e));
                },
            };
            let offset_for_top_to_bottom_field = match r.read_se() {
                Ok(v) => v,
                Err(e) => {
                    return Err(PicOrderCntError::ReaderError(e));
                },
            };
            let offsets_for_ref_frame = match Self::read_offsets_for_ref_frame(r) {
                Ok(v) => v,
                Err(e) => {
                    return Err(e);
                },
            };
            Ok(
                PicOrderCntType::TypeOne {
                    delta_pic_order_always_zero_flag,
                    offset_for_non_ref_pic,
                    offset_for_top_to_bottom_field,
                    offsets_for_ref_frame,
                },
            )
        } else if pic_order_cnt_type == 2 {
            Ok(PicOrderCntType::TypeTwo)
        } else {
            Err(PicOrderCntError::InvalidPicOrderCountType(pic_order_cnt_type))
        }
    }

    pub fn read_log2_max_pic_order_cnt_lsb_minus4(r: &mut RbspBitReader) -> (res: Result<
        u8,
        PicOrderCntError,
    >)
        requires
            old(r).wf(),
        ensures
            final(r).data@ == old(r).data@,
            final(r).wf(),
            match res {
                Ok(v) => parse_log2_max_pic_order_cnt_lsb(old(r).data@, old(r).pos as nat) == Ok::<
                    (u8, nat),
                    PicOrderCntError,
                >((v, final(r).pos as nat)),
                Err(e) => parse_log2_max_pic_order_cnt_lsb(old(r).data@, old(r).pos as nat)
                    == Err::<(u8, nat), PicOrderCntError>(e),
            },
    {
        let val = match r.read_ue() {
            Ok(v) => v,
            Err(e) => {
                return Err(PicOrderCntError::ReaderError(e));
            },
        };
        if val > 12 {
            Err(PicOrderCntError::Log2MaxPicOrderCntLsbMinus4OutOfRange(val))
        } else {
            Ok(val as u8)
        }
    }

    pub fn read_offsets_for_ref_frame(r: &mut RbspBitReader) -> (res: Result<
        Vec<i32>,
        PicOrderCntError,
    >)
        requires
            old(r).wf(),
        ensures
            final(r).data@ == old(r).data@,
            final(r).wf(),
            match res {
                Ok(v) => parse_offsets_for_ref_frame(old(r).data@, old(r).pos as nat) == Ok::<
                    (Seq<i32>, nat),
                    PicOrderCntError,
                >((v@, final(r).pos as nat)),
                Err(e) => parse_offsets_for_ref_frame(old(r).data@, old(r).pos as nat) == Err::<
                    (Seq<i32>, nat),
                    PicOrderCntError,
                >(e),
            },
    {
        let ghost d = old(r).data@;
        let num_ref_frames_in_pic_order_cnt_cycle = match r.read_ue() {
            Ok(v) => v,
            Err(e) => {
                return Err(PicOrderCntError::ReaderError(e));
            },
        };
        let ghost pl = r.pos as nat;
        let n = num_ref_frames_in_pic_order_cnt_cycle;
        let mut offsets: Vec<i32> = Vec::new();
        let mut i: u32 = 0;
        while i < n
            invariant
                d == old(r).data@,
                r.data@ == d,
                r.wf(),
                i <= n,
                parse_ue(d, old(r).pos as nat) == Ok::<(nat, nat), BitReaderError>(
                    (n as nat, pl),
                ),
                parse_se_list(d, pl, n as nat) == (match parse_se_list(
                    d,
                    r.pos as nat,
                    (n - i) as nat,
                ) {
                    Ok(pr) => Ok::<(Seq<i32>, nat), BitReaderError>((offsets@ + pr.0, pr.1)),
                    Err(e) => Err::<(Seq<i32>, nat), BitReaderError>(e),
                }),
            decreases n - i,
        {
            let v = match r.read_se() {
                Ok(v) => v,
                Err(e) => {
                    return Err(PicOrderCntError::ReaderError(e));
                },
            };
            proof {
                let m = (n - i) as nat;
                let pr = parse_se_list(d, r.pos as nat, (m - 1) as nat);
                if pr is Ok {
                    let (rest, _pe) = pr->Ok_0;
                    assert(offsets@ + (seq![v] + rest) =~= (offsets@ + seq![v]) + rest);
                    assert(offsets@.push(v) =~= offsets@ + seq![v]);
                }
            }
            offsets.push(v);
            i = i + 1;
        }
        proof {
            assert(parse_se_list(d, r.pos as nat, 0) == Ok::<(Seq<i32>, nat), BitReaderError>(
                (Seq::empty(), r.pos as nat),
            ));
            assert(offsets@ + Seq::<i32>::empty() =~= offsets@);
        }
        Ok(offsets)
    }
}

/// Result of the frame/field coding flags: frame-only, or field coding with an
/// adaptive flag.
pub open spec fn parse_frame_mbs_flags(d: Seq<u8>, p: nat) -> Result<
    (FrameMbsFlags, nat),
    BitReaderError,
> {
    match parse_bool(d, p) {
        Ok((frames_only, p1)) => {
            if frames_only {
                Ok((FrameMbsFlags::Frames, p1))
            } else {
                match parse_bool(d, p1) {
                    Ok((adaptive, p2)) => Ok(
                        (FrameMbsFlags::Fields { mb_adaptive_frame_field_flag: adaptive }, p2),
                    ),
                    Err(e) => Err(e),
                }
            }
        },
        Err(e) => Err(e),
    }
}

/// Whether pictures are coded as frames or (possibly adaptively) as fields.
#[derive(Debug, Clone, PartialEq)]
pub enum FrameMbsFlags {
    Frames,
    Fields { mb_adaptive_frame_field_flag: bool },
}

impl FrameMbsFlags {
    pub fn read(r: &mut RbspBitReader) -> (res: Result<FrameMbsFlags, BitReaderError>)
        requires
            old(r).wf(),
        ensures
            final(r).data@ == old(r).data@,
            final(r).wf(),
            match res {
                Ok(v) => parse_frame_mbs_flags(old(r).data@, old(r).pos as nat) == Ok::<
                    (FrameMbsFlags, nat),
                    BitReaderError,
                >((v, final(r).pos as nat)),
                Err(e) => parse_frame_mbs_flags(old(r).data@, old(r).pos as nat) == Err::<
                    (FrameMbsFlags, nat),
                    BitReaderError,
                >(e),
            },
    {
        let frame_mbs_only_flag = match r.read_bool() {
            Ok(b) => b,
            Err(e) => {
                return Err(e);
            },
        };
        if frame_mbs_only_flag {
            Ok(FrameMbsFlags::Frames)
        } else {
            match r.read_bool() {
                Ok(b) => Ok(FrameMbsFlags::Fields { mb_adaptive_frame_field_flag: b }),
                Err(e) => Err(e),
            }
        }
    }
}

/// Result of the optional frame-cropping rectangle: a presence flag, then four
/// unsigned offsets.
pub open spec fn parse_frame_cropping(d: Seq<u8>, p: nat) -> Result<
    (Option<FrameCropping>, nat),
    BitReaderError,
> {
    match parse_bool(d, p) {
        Ok((present, p1)) => {
            if present {
                match parse_ue(d, p1) {
                    Ok((l, p2)) => match parse_ue(d, p2) {
                        Ok((rr, p3)) => match parse_ue(d, p3) {
                            Ok((t, p4)) => match parse_ue(d, p4) {
                                Ok((b, p5)) => Ok(
                                    (
                                        Some(
                                            FrameCropping {
                                                left_offset: l as u32,
                                                right_offset: rr as u32,
                                                top_offset: t as u32,
                                                bottom_offset: b as u32,
                                            },
                                        ),
                                        p5,
                                    ),
                                ),
                                Err(e) => Err(e),
                            },
                            Err(e) => Err(e),
                        },
                        Err(e) => Err(e),
                    },
                    Err(e) => Err(e),
                }
            } else {
                Ok((None, p1))
            }
        },
        Err(e) => Err(e),
    }
}

/// The cropping rectangle an SPS may carry, in chroma-unit offsets from each
/// picture edge.
#[derive(Debug, Clone, Copy, PartialEq, Eq)]
pub struct FrameCropping {
    pub left_offset: u32,
    pub right_offset: u32,
    pub top_offset: u32,
    pub bottom_offset: u32,
}

impl FrameCropping {
    pub fn read(r: &mut RbspBitReader) -> (res: Result<Option<FrameCropping>, BitReaderError>)
        requires
            old(r).wf(),
        ensures
            final(r).data@ == old(r).data@,
            final(r).wf(),
            match res {
                Ok(v) => parse_frame_cropping(old(r).data@, old(r).pos as nat) == Ok::<
                    (Option<FrameCropping>, nat),
                    BitReaderError,
                >((v, final(r).pos as nat)),
                Err(e) => parse_frame_cropping(old(r).data@, old(r).pos as nat) == Err::<
                    (Option<FrameCropping>, nat),
                    BitReaderError,
                >(e),
            },
    {
        let frame_cropping_flag = match r.read_bool() {
            Ok(b) => b,
            Err(e) => {
                return Err(e);
            },
        };
        if frame_cropping_flag {
            let left_offset = match r.read_ue() {
                Ok(v) => v,
                Err(e) => {
                    return Err(e);
                },
            };
            let right_offset = match r.read_ue() {
                Ok(v) => v,
                Err(e) => {
                    return Err(e);
                },
            };
            let top_offset = match r.read_ue() {
                Ok(v) => v,
                Err(e) => {
                    return Err(e);
                },
            };
            let bottom_offset = match r.read_ue() {
                Ok(v) => v,
                Err(e) => {
                    return Err(e);
                },
            };
            Ok(Some(FrameCropping { left_offset, right_offset, top_offset, bottom_offset }))
        } else {
            Ok(None)
        }
    }
}

/// The sample aspect ratio signalled in the VUI: one of the enumerated ratios,
/// a reserved code, or an explicit width/height pair.
#[derive(Debug, Clone, Copy, PartialEq)]
pub enum AspectRatioInfo {
    Unspecified,
    Ratio1_1,
    Ratio12_11,
    Ratio10_11,
    Ratio16_11,
    Ratio40_33,
    Ratio24_11,
    Ratio20_11,
    Ratio32_11,
    Ratio80_33,
    Ratio18_11,
    Ratio15_11,
    Ratio64_33,
    Ratio160_99,
    Ratio4_3,
    Ratio3_2,
    Ratio2_1,
    Reserved(u8),
    Extended(u16, u16),
}

/// The aspect-ratio variant denoted by a non-extended `aspect_ratio_idc` code.
pub open spec fn spec_aspect_ratio(code: u8) -> AspectRatioInfo {
    if code == 0 {
        AspectRatioInfo::Unspecified
    } else if code == 1 {
        AspectRatioInfo::Ratio1_1
    } else if code == 2 {
        AspectRatioInfo::Ratio12_11
    } else if code == 3 {
        AspectRatioInfo::Ratio10_11
    } else if code == 4 {
        AspectRatioInfo::Ratio16_11
    } else if code == 5 {
        AspectRatioInfo::Ratio40_33
    } else if code == 6 {
        AspectRatioInfo::Ratio24_11
    } else if code == 7 {
        AspectRatioInfo::Ratio20_11
    } else if code == 8 {
        AspectRatioInfo::Ratio32_11
    } else if code == 9 {
        AspectRatioInfo::Ratio80_33
    } else if code == 10 {
        AspectRatioInfo::Ratio18_11
    } else if code == 11 {
        AspectRatioInfo::Ratio15_11
    } else if code == 12 {
        AspectRatioInfo::Ratio64_33
    } else if code == 13 {
        AspectRatioInfo::Ratio160_99
    } else if code == 14 {
        AspectRatioInfo::Ratio4_3
    } else if code == 15 {
        AspectRatioInfo::Ratio3_2
    } else if code == 16 {
        AspectRatioInfo::Ratio2_1
    } else {
        AspectRatioInfo::Reserved(code)
    }
}

/// The `(width, height)` pair an aspect-ratio variant denotes, if it denotes
/// one: unspecified, reserved, and degenerate extended ratios (a zero width or
/// height) denote none.
pub open spec fn spec_aspect_ratio_get(a: AspectRatioInfo) -> Option<(u16, u16)> {
    match a {
        AspectRatioInfo::Unspecified => None,
        AspectRatioInfo::Ratio1_1 => Some((1u16, 1u16)),
        AspectRatioInfo::Ratio12_11 => Some((12u16, 11u16)),
        AspectRatioInfo::Ratio10_11 => Some((10u16, 11u16)),
        AspectRatioInfo::Ratio16_11 => Some((16u16, 11u16)),
        AspectRatioInfo::Ratio40_33 => Some((40u16, 33u16)),
        AspectRatioInfo::Ratio24_11 => Some((24u16, 11u16)),
        AspectRatioInfo::Ratio20_11 => Some((20u16, 11u16)),
        AspectRatioInfo::Ratio32_11 => Some((32u16, 11u16)),
        AspectRatioInfo::Ratio80_33 => Some((80u16, 33u16)),
        AspectRatioInfo::Ratio18_11 => Some((18u16, 11u16)),
        AspectRatioInfo::Ratio15_11 => Some((15u16, 11u16)),
        AspectRatioInfo::Ratio64_33 => Some((64u16, 33u16)),
        AspectRatioInfo::Ratio160_99 => Some((160u16, 99u16)),
        AspectRatioInfo::Ratio4_3 => Some((4u16, 3u16)),
        AspectRatioInfo::Ratio3_2 => Some((3u16, 2u16)),
        AspectRatioInfo::Ratio2_1 => Some((2u16, 1u16)),
        AspectRatioInfo::Reserved(_) => None,
        AspectRatioInfo::Extended(width, height) => {
            if width == 0 || height == 0 {
                None
            } else {
                Some((width, height))
            }
        },
    }
}

/// Result of the optional aspect-ratio syntax: a presence flag, an eight-bit
/// code, and for the extended code 255 an explicit width and height.
pub open spec fn parse_aspect_ratio_info(d: Seq<u8>, p: nat) -> Result<
    (Option<AspectRatioInfo>, nat),
    BitReaderError,
> {
    match parse_bool(d, p) {
        Ok((present, p1)) => {
            if present {
                match parse_bits(d, p1, 8) {
                    Ok((code, p2)) => {
                        if code == 255 {
                            match parse_bits(d, p2, 16) {
                                Ok((w, p3)) => match parse_bits(d, p3, 16) {
                                    Ok((h, p4)) => Ok(
                                        (
                                            Some(
                                                AspectRatioInfo::Extended(w as u16, h as u16),
                                            ),
                                            p4,
                                        ),
                                    ),
                                    Err(e) => Err(e),
                                },
                                Err(e) => Err(e),
                            }
                        } else {
                            Ok((Some(spec_aspect_ratio(code as u8)), p2))
                        }
                    },
                    Err(e) => Err(e),
                }
            } else {
                Ok((None, p1))
            }
        },
        Err(e) => Err(e),
    }
}

impl AspectRatioInfo {
    pub fn read(r: &mut RbspBitReader) -> (res: Result<Option<AspectRatioInfo>, BitReaderError>)
        requires
            old(r).wf(),
        ensures
            final(r).data@ == old(r).data@,
            final(r).wf(),
            match res {
                Ok(v) => parse_aspect_ratio_info(old(r).data@, old(r).pos as nat) == Ok::<
                    (Option<AspectRatioInfo>, nat),
                    BitReaderError,
                >((v, final(r).pos as nat)),
                Err(e) => parse_aspect_ratio_info(old(r).data@, old(r).pos as nat) == Err::<
                    (Option<AspectRatioInfo>, nat),
                    BitReaderError,
                >(e),
            },
    {
        let aspect_ratio_info_present_flag = match r.read_bool() {
            Ok(b) => b,
            Err(e) => {
                return Err(e);
            },
        };
        if !aspect_ratio_info_present_flag {
            return Ok(None);
        }
        let aspect_ratio_idc = match r.read_u8(8) {
            Ok(v) => v,
            Err(e) => {
                return Err(e);
            },
        };
        let info = match aspect_ratio_idc {
            0 => AspectRatioInfo::Unspecified,
            1 => AspectRatioInfo::Ratio1_1,
            2 => AspectRatioInfo::Ratio12_11,
            3 => AspectRatioInfo::Ratio10_11,
            4 => AspectRatioInfo::Ratio16_11,
            5 => AspectRatioInfo::Ratio40_33,
            6 => AspectRatioInfo::Ratio24_11,
            7 => AspectRatioInfo::Ratio20_11,
            8 => AspectRatioInfo::Ratio32_11,
            9 => AspectRatioInfo::Ratio80_33,
            10 => AspectRatioInfo::Ratio18_11,
            11 => AspectRatioInfo::Ratio15_11,
            12 => AspectRatioInfo::Ratio64_33,
            13 => AspectRatioInfo::Ratio160_99,
            14 => AspectRatioInfo::Ratio4_3,
            15 => AspectRatioInfo::Ratio3_2,
            16 => AspectRatioInfo::Ratio2_1,
            255 => {
                let w = match r.read_u16(16) {
                    Ok(v) => v,
                    Err(e) => {
                        return Err(e);
                    },
                };
                let h = match r.read_u16(16) {
                    Ok(v) => v,
                    Err(e) => {
                        return Err(e);
                    },
                };
                AspectRatioInfo::Extended(w, h)
            },
            _ => AspectRatioInfo::Reserved(aspect_ratio_idc),
        };
        Ok(Some(info))
    }

    /// Returns the aspect ratio as `(width, height)`, if specified.
    pub fn get(self) -> (r: Option<(u16, u16)>)
        ensures
            r == spec_aspect_ratio_get(self),
    {
        match self {
            AspectRatioInfo::Unspecified => None,
            AspectRatioInfo::Ratio1_1 => Some((1, 1)),
            AspectRatioInfo::Ratio12_11 => Some((12, 11)),
            AspectRatioInfo::Ratio10_11 => Some((10, 11)),
            AspectRatioInfo::Ratio16_11 => Some((16, 11)),
            AspectRatioInfo::Ratio40_33 => Some((40, 33)),
            AspectRatioInfo::Ratio24_11 => Some((24, 11)),
            AspectRatioInfo::Ratio20_11 => Some((20, 11)),
            AspectRatioInfo::Ratio32_11 => Some((32, 11)),
            AspectRatioInfo::Ratio80_33 => Some((80, 33)),
            AspectRatioInfo::Ratio18_11 => Some((18, 11)),
            AspectRatioInfo::Ratio15_11 => Some((15, 11)),
            AspectRatioInfo::Ratio64_33 => Some((64, 33)),
            AspectRatioInfo::Ratio160_99 => Some((160, 99)),
            AspectRatioInfo::Ratio4_3 => Some((4, 3)),
            AspectRatioInfo::Ratio3_2 => Some((3, 2)),
            AspectRatioInfo::Ratio2_1 => Some((2, 1)),
            AspectRatioInfo::Reserved(_) => None,
            AspectRatioInfo::Extended(width, height) => {
                // ISO/IEC 14496-10 section E.2.1: a zero sar_width or sar_height
                // means the sample aspect ratio is unspecified.
                if width == 0 || height == 0 {
                    None
                } else {
                    Some((width, height))
                }
            },
        }
    }
}

/// Whether display overscan is appropriate for the stream, when signalled.
#[derive(Debug, Clone, Copy, PartialEq, Eq)]
pub enum OverscanAppropriate {
    Unspecified,
    Appropriate,
    Inappropriate,
}

/// Result of the overscan syntax: a presence flag, then the appropriateness
/// flag when present.
pub open spec fn parse_overscan(d: Seq<u8>, p: nat) -> Result<
    (OverscanAppropriate, nat),
    BitReaderError,
> {
    match parse_bool(d, p) {
        Ok((present, p1)) => {
            if present {
                match parse_bool(d, p1) {
                    Ok((appropriate, p2)) => Ok(
                        (
                            if appropriate {
                                OverscanAppropriate::Appropriate
                            } else {
                                OverscanAppropriate::Inappropriate
                            },
                            p2,
                        ),
                    ),
                    Err(e) => Err(e),
                }
            } else {
                Ok((OverscanAppropriate::Unspecified, p1))
            }
        },
        Err(e) => Err(e),
    }
}

impl OverscanAppropriate {
    pub fn read(r: &mut RbspBitReader) -> (res: Result<OverscanAppropriate, BitReaderError>)
        requires
            old(r).wf(),
        ensures
            final(r).data@ == old(r).data@,
            final(r).wf(),
            match res {
                Ok(v) => parse_overscan(old(r).data@, old(r).pos as nat) == Ok::<
                    (OverscanAppropriate, nat),
                    BitReaderError,
                >((v, final(r).pos as nat)),
                Err(e) => parse_overscan(old(r).data@, old(r).pos as nat) == Err::<
                    (OverscanAppropriate, nat),
                    BitReaderError,
                >(e),
            },
    {
        let overscan_info_present_flag = match r.read_bool() {
            Ok(b) => b,
            Err(e) => {
                return Err(e);
            },
        };
        if overscan_info_present_flag {
            let overscan_appropriate_flag = match r.read_bool() {
                Ok(b) => b,
                Err(e) => {
                    return Err(e);
                },
            };
            if overscan_appropriate_flag {
                Ok(OverscanAppropriate::Appropriate)
            } else {
                Ok(OverscanAppropriate::Inappropriate)
            }
        } else {
            Ok(OverscanAppropriate::Unspecified)
        }
    }
}

/// The analogue video standard the stream derives from; codes 6 and above are
/// reserved and preserved as such.
#[derive(Debug, Clone, Copy, PartialEq, Eq)]
pub enum VideoFormat {
    Component,
    PAL,
    NTSC,
    SECAM,
    MAC,
    Unspecified,
    Reserved(u8),
}

/// The video format denoted by a three-bit `video_format` code.
pub open spec fn spec_video_format(code: u8) -> VideoFormat {
    if code == 0 {
        VideoFormat::Component
    } else if code == 1 {
        VideoFormat::PAL
    } else if code == 2 {
        VideoFormat::NTSC
    } else if code == 3 {
        VideoFormat::SECAM
    } else if code == 4 {
        VideoFormat::MAC
    } else if code == 5 {
        VideoFormat::Unspecified
    } else {
        VideoFormat::Reserved(code)
    }
}

impl VideoFormat {
    pub fn from(video_format: u8) -> (f: VideoFormat)
        ensures
            f == spec_video_format(video_format),
    {
        match video_format {
            0 => VideoFormat::Component,
            1 => VideoFormat::PAL,
            2 => VideoFormat::NTSC,
            3 => VideoFormat::SECAM,
            4 => VideoFormat::MAC,
            5 => VideoFormat::Unspecified,
            _ => VideoFormat::Reserved(video_format),
        }
    }
}

/// The colour-description triple the video-signal syntax may carry.
#[derive(Debug, Clone, Copy, PartialEq, Eq)]
pub struct ColourDescription {
    pub colour_primaries: u8,
    pub transfer_characteristics: u8,
    pub matrix_coefficients: u8,
}

/// Result of the optional colour description: a presence flag, then three
/// eight-bit codes.
pub open spec fn parse_colour_description(d: Seq<u8>, p: nat) -> Result<
    (Option<ColourDescription>, nat),
    BitReaderError,
> {
    match parse_bool(d, p) {
        Ok((present, p1)) => {
            if present {
                match parse_bits(d, p1, 8) {
                    Ok((cp, p2)) => match parse_bits(d, p2, 8) {
                        Ok((tc, p3)) => match parse_bits(d, p3, 8) {
                            Ok((mc, p4)) => Ok(
                                (
                                    Some(
                                        ColourDescription {
                                            colour_primaries: cp as u8,
                                            transfer_characteristics: tc as u8,
                                            matrix_coefficients: mc as u8,
                                        },
                                    ),
                                    p4,
                                ),
                            ),
                            Err(e) => Err(e),
                        },
                        Err(e) => Err(e),
                    },
                    Err(e) => Err(e),
                }
            } else {
                Ok((None, p1))
            }
        },
        Err(e) => Err(e),
    }
}

impl ColourDescription {
    pub fn read(r: &mut RbspBitReader) -> (res: Result<Option<ColourDescription>, BitReaderError>)
        requires
            old(r).wf(),
        ensures
            final(r).data@ == old(r).data@,
            final(r).wf(),
            match res {
                Ok(v) => parse_colour_description(old(r).data@, old(r).pos as nat) == Ok::<
                    (Option<ColourDescription>, nat),
                    BitReaderError,
                >((v, final(r).pos as nat)),
                Err(e) => parse_colour_description(old(r).data@, old(r).pos as nat) == Err::<
                    (Option<ColourDescription>, nat),
                    BitReaderError,
                >(e),
            },
    {
        let colour_description_present_flag = match r.read_bool() {
            Ok(b) => b,
            Err(e) => {
                return Err(e);
            },
        };
        if colour_description_present_flag {
            let colour_primaries = match r.read_u8(8) {
                Ok(v) => v,
                Err(e) => {
                    return Err(e);
                },
            };
            let transfer_characteristics = match r.read_u8(8) {
                Ok(v) => v,
                Err(e) => {
                    return Err(e);
                },
            };
            let matrix_coefficients = match r.read_u8(8) {
                Ok(v) => v,
                Err(e) => {
                    return Err(e);
                },
            };
            Ok(Some(ColourDescription { colour_primaries, transfer_characteristics, matrix_coefficients }))
        } else {
            Ok(None)
        }
    }
}

/// The video-signal-type fields the VUI may carry.
#[derive(Debug, Clone, Copy, PartialEq, Eq)]
pub struct VideoSignalType {
    pub video_format: VideoFormat,
    pub video_full_range_flag: bool,
    pub colour_description: Option<ColourDescription>,
}

/// Result of the optional video-signal syntax: a presence flag, then a
/// three-bit format code, a full-range flag, and an optional colour
/// description.
pub open spec fn parse_video_signal_type(d: Seq<u8>, p: nat) -> Result<
    (Option<VideoSignalType>, nat),
    BitReaderError,
> {
    match parse_bool(d, p) {
        Ok((present, p1)) => {
            if present {
                match parse_bits(d, p1, 3) {
                    Ok((fmt, p2)) => match parse_bool(d, p2) {
                        Ok((full_range, p3)) => match parse_colour_description(d, p3) {
                            Ok((cd, p4)) => Ok(
                                (
                                    Some(
                                        VideoSignalType {
                                            video_format: spec_video_format(fmt as u8),
                                            video_full_range_flag: full_range,
                                            colour_description: cd,
                                        },
                                    ),
                                    p4,
                                ),
                            ),
                            Err(e) => Err(e),
                        },
                        Err(e) => Err(e),
                    },
                    Err(e) => Err(e),
                }
            } else {
                Ok((None, p1))
            }
        },
        Err(e) => Err(e),
    }
}

impl VideoSignalType {
    pub fn read(r: &mut RbspBitReader) -> (res: Result<Option<VideoSignalType>, BitReaderError>)
        requires
            old(r).wf(),
        ensures
            final(r).data@ == old(r).data@,
            final(r).wf(),
            match res {
                Ok(v) => parse_video_signal_type(old(r).data@, old(r).pos as nat) == Ok::<
                    (Option<VideoSignalType>, nat),
                    BitReaderError,
                >((v, final(r).pos as nat)),
                Err(e) => parse_video_signal_type(old(r).data@, old(r).pos as nat) == Err::<
                    (Option<VideoSignalType>, nat),
                    BitReaderError,
                >(e),
            },
    {
        let video_signal_type_present_flag = match r.read_bool() {
            Ok(b) => b,
            Err(e) => {
                return Err(e);
            },
        };
        if video_signal_type_present_flag {
            let fmt = match r.read_u8(3) {
                Ok(v) => v,
                Err(e) => {
                    return Err(e);
                },
            };
            let video_full_range_flag = match r.read_bool() {
                Ok(b) => b,
                Err(e) => {
                    return Err(e);
                },
            };
            let colour_description = match ColourDescription::read(r) {
                Ok(v) => v,
                Err(e) => {
                    return Err(e);
                },
            };
            Ok(
                Some(
                    VideoSignalType {
                        video_format: VideoFormat::from(fmt),
                        video_full_range_flag,
                        colour_description,
                    },
                ),
            )
        } else {
            Ok(None)
        }
    }
}

/// The chroma sample locations the VUI may carry.
#[derive(Debug, Clone, Copy, PartialEq, Eq)]
pub struct ChromaLocInfo {
    pub chroma_sample_loc_type_top_field: u32,
    pub chroma_sample_loc_type_bottom_field: u32,
}

/// Result of the optional chroma-location syntax: a presence flag, then two
/// unsigned Exp-Golomb location codes.
pub open spec fn parse_chroma_loc_info(d: Seq<u8>, p: nat) -> Result<
    (Option<ChromaLocInfo>, nat),
    BitReaderError,
> {
    match parse_bool(d, p) {
        Ok((present, p1)) => {
            if present {
                match parse_ue(d, p1) {
                    Ok((top, p2)) => match parse_ue(d, p2) {
                        Ok((bottom, p3)) => Ok(
                            (
                                Some(
                                    ChromaLocInfo {
                                        chroma_sample_loc_type_top_field: top as u32,
                                        chroma_sample_loc_type_bottom_field: bottom as u32,
                                    },
                                ),
                                p3,
                            ),
                        ),
                        Err(e) => Err(e),
                    },
                    Err(e) => Err(e),
                }
            } else {
                Ok((None, p1))
            }
        },
        Err(e) => Err(e),
    }
}

impl ChromaLocInfo {
    pub fn read(r: &mut RbspBitReader) -> (res: Result<Option<ChromaLocInfo>, BitReaderError>)
        requires
            old(r).wf(),
        ensures
            final(r).data@ == old(r).data@,
            final(r).wf(),
            match res {
                Ok(v) => parse_chroma_loc_info(old(r).data@, old(r).pos as nat) == Ok::<
                    (Option<ChromaLocInfo>, nat),
                    BitReaderError,
                >((v, final(r).pos as nat)),
                Err(e) => parse_chroma_loc_info(old(r).data@, old(r).pos as nat) == Err::<
                    (Option<ChromaLocInfo>, nat),
                    BitReaderError,
                >(e),
            },
    {
        let chroma_loc_info_present_flag = match r.read_bool() {
            Ok(b) => b,
            Err(e) => {
                return Err(e);
            },
        };
        if chroma_loc_info_present_flag {
            let top = match r.read_ue() {
                Ok(v) => v,
                Err(e) => {
                    return Err(e);
                },
            };
            let bottom = match r.read_ue() {
                Ok(v) => v,
                Err(e) => {
                    return Err(e);
                },
            };
            Ok(
                Some(
                    ChromaLocInfo {
                        chroma_sample_loc_type_top_field: top,
                        chroma_sample_loc_type_bottom_field: bottom,
                    },
                ),
            )
        } else {
            Ok(None)
        }
    }
}

/// The timing fields the VUI may carry.
#[derive(Debug, Clone, Copy, PartialEq, Eq)]
pub struct TimingInfo {
    pub num_units_in_tick: u32,
    pub time_scale: u32,
    pub fixed_frame_rate_flag: bool,
}

/// Result of the optional timing syntax: a presence flag, then two 32-bit
/// values and a fixed-rate flag.
pub open spec fn parse_timing_info(d: Seq<u8>, p: nat) -> Result<
    (Option<TimingInfo>, nat),
    BitReaderError,
> {
    match parse_bool(d, p) {
        Ok((present, p1)) => {
            if present {
                match parse_bits(d, p1, 32) {
                    Ok((units, p2)) => match parse_bits(d, p2, 32) {
                        Ok((scale, p3)) => match parse_bool(d, p3) {
                            Ok((fixed, p4)) => Ok(
                                (
                                    Some(
                                        TimingInfo {
                                            num_units_in_tick: units as u32,
                                            time_scale: scale as u32,
                                            fixed_frame_rate_flag: fixed,
                                        },
                                    ),
                                    p4,
                                ),
                            ),
                            Err(e) => Err(e),
                        },
                        Err(e) => Err(e),
                    },
                    Err(e) => Err(e),
                }
            } else {
                Ok((None, p1))
            }
        },
        Err(e) => Err(e),
    }
}

impl TimingInfo {
    pub fn read(r: &mut RbspBitReader) -> (res: Result<Option<TimingInfo>, BitReaderError>)
        requires
            old(r).wf(),
        ensures
            final(r).data@ == old(r).data@,
            final(r).wf(),
            match res {
                Ok(v) => parse_timing_info(old(r).data@, old(r).pos as nat) == Ok::<
                    (Option<TimingInfo>, nat),
                    BitReaderError,
                >((v, final(r).pos as nat)),
                Err(e) => parse_timing_info(old(r).data@, old(r).pos as nat) == Err::<
                    (Option<TimingInfo>, nat),
                    BitReaderError,
                >(e),
            },
    {
        let timing_info_present_flag = match r.read_bool() {
            Ok(b) => b,
            Err(e) => {
                return Err(e);
            },
        };
        if timing_info_present_flag {
            let num_units_in_tick = match r.read_u32(32) {
                Ok(v) => v,
                Err(e) => {
                    return Err(e);
                },
            };
            let time_scale = match r.read_u32(32) {
                Ok(v) => v,
                Err(e) => {
                    return Err(e);
                },
            };
            let fixed_frame_rate_flag = match r.read_bool() {
                Ok(b) => b,
                Err(e) => {
                    return Err(e);
                },
            };
            Ok(Some(TimingInfo { num_units_in_tick, time_scale, fixed_frame_rate_flag }))
        } else {
            Ok(None)
        }
    }
}

/// One coded-picture-buffer specification of an HRD block.
#[derive(Debug, Clone, Copy, PartialEq, Eq)]
pub struct CpbSpec {
    pub bit_rate_value_minus1: u32,
    pub cpb_size_value_minus1: u32,
    pub cbr_flag: bool,
}

/// Result of one CPB specification: two unsigned Exp-Golomb values and a CBR
/// flag.
pub open spec fn parse_cpb_spec(d: Seq<u8>, p: nat) -> Result<(CpbSpec, nat), BitReaderError> {
    match parse_ue(d, p) {
        Ok((bit_rate, p1)) => match parse_ue(d, p1) {
            Ok((cpb_size, p2)) => match parse_bool(d, p2) {
                Ok((cbr, p3)) => Ok(
                    (
                        CpbSpec {
                            bit_rate_value_minus1: bit_rate as u32,
                            cpb_size_value_minus1: cpb_size as u32,
                            cbr_flag: cbr,
                        },
                        p3,
                    ),
                ),
                Err(e) => Err(e),
            },
            Err(e) => Err(e),
        },
        Err(e) => Err(e),
    }
}

/// Result of a run of `n` CPB specifications starting at `p`.
pub open spec fn parse_cpb_list(d: Seq<u8>, p: nat, n: nat) -> Result<
    (Seq<CpbSpec>, nat),
    BitReaderError,
>
    decreases n,
{
    if n == 0 {
        Ok((Seq::empty(), p))
    } else {
        match parse_cpb_spec(d, p) {
            Ok((v, p1)) => match parse_cpb_list(d, p1, (n - 1) as nat) {
                Ok((rest, p2)) => Ok((seq![v] + rest, p2)),
                Err(e) => Err(e),
            },
            Err(e) => Err(e),
        }
    }
}

impl CpbSpec {
    pub fn read(r: &mut RbspBitReader) -> (res: Result<CpbSpec, BitReaderError>)
        requires
            old(r).wf(),
        ensures
            final(r).data@ == old(r).data@,
            final(r).wf(),
            match res {
                Ok(v) => parse_cpb_spec(old(r).data@, old(r).pos as nat) == Ok::<
                    (CpbSpec, nat),
                    BitReaderError,
                >((v, final(r).pos as nat)),
                Err(e) => parse_cpb_spec(old(r).data@, old(r).pos as nat) == Err::<
                    (CpbSpec, nat),
                    BitReaderError,
                >(e),
            },
    {
        let bit_rate_value_minus1 = match r.read_ue_named("bit_rate_value_minus1") {
            Ok(v) => v,
            Err(e) => {
                return Err(e);
            },
        };
        let cpb_size_value_minus1 = match r.read_ue_named("cpb_size_value_minus1") {
            Ok(v) => v,
            Err(e) => {
                return Err(e);
            },
        };
        let cbr_flag = match r.read_bool_named("cbr_flag") {
            Ok(b) => b,
            Err(e) => {
                return Err(e);
            },
        };
        Ok(CpbSpec { bit_rate_value_minus1, cpb_size_value_minus1, cbr_flag })
    }
}

/// The hypothetical-reference-decoder parameters a VUI may carry.
#[derive(Debug, Clone, PartialEq)]
pub struct HrdParameters {
    pub bit_rate_scale: u8,
    pub cpb_size_scale: u8,
    pub cpb_specs: Vec<CpbSpec>,
    pub initial_cpb_removal_delay_length_minus1: u8,
    pub cpb_removal_delay_length_minus1: u8,
    pub dpb_output_delay_length_minus1: u8,
    pub time_offset_length: u8,
}

/// The mathematical image of `HrdParameters`, with the CPB list as a sequence.
pub struct HrdParametersView {
    pub bit_rate_scale: u8,
    pub cpb_size_scale: u8,
    pub cpb_specs: Seq<CpbSpec>,
    pub initial_cpb_removal_delay_length_minus1: u8,
    pub cpb_removal_delay_length_minus1: u8,
    pub dpb_output_delay_length_minus1: u8,
    pub time_offset_length: u8,
}

impl View for HrdParameters {
    type V = HrdParametersView;

    open spec fn view(&self) -> HrdParametersView {
        HrdParametersView {
            bit_rate_scale: self.bit_rate_scale,
            cpb_size_scale: self.cpb_size_scale,
            cpb_specs: self.cpb_specs@,
            initial_cpb_removal_delay_length_minus1: self.initial_cpb_removal_delay_length_minus1,
            cpb_removal_delay_length_minus1: self.cpb_removal_delay_length_minus1,
            dpb_output_delay_length_minus1: self.dpb_output_delay_length_minus1,
            time_offset_length: self.time_offset_length,
        }
    }
}

/// Result of an optional HRD block: a presence flag; when set, a CPB count,
/// two four-bit scale factors, one CPB specification per counted buffer, and
/// four five-bit length fields.
pub open spec fn parse_hrd(d: Seq<u8>, p: nat) -> Result<
    (Option<HrdParametersView>, nat),
    BitReaderError,
> {
    match parse_bool(d, p) {
        Ok((present, p1)) => {
            if present {
                match parse_ue(d, p1) {
                    Ok((cpb_cnt_minus1, p2)) => match parse_bits(d, p2, 4) {
                        Ok((brs, p3)) => match parse_bits(d, p3, 4) {
                            Ok((css, p4)) => match parse_cpb_list(d, p4, cpb_cnt_minus1 + 1) {
                                Ok((specs, p5)) => match parse_bits(d, p5, 5) {
                                    Ok((icrd, p6)) => match parse_bits(d, p6, 5) {
                                        Ok((crd, p7)) => match parse_bits(d, p7, 5) {
                                            Ok((dod, p8)) => match parse_bits(d, p8, 5) {
                                                Ok((tol, p9)) => Ok(
                                                    (
                                                        Some(
                                                            HrdParametersView {
                                                                bit_rate_scale: brs as u8,
                                                                cpb_size_scale: css as u8,
                                                                cpb_specs: specs,
                                                                initial_cpb_removal_delay_length_minus1:
                                                                    icrd as u8,
                                                                cpb_removal_delay_length_minus1:
                                                                    crd as u8,
                                                                dpb_output_delay_length_minus1:
                                                                    dod as u8,
                                                                time_offset_length: tol as u8,
                                                            },
                                                        ),
                                                        p9,
                                                    ),
                                                ),
                                                Err(e) => Err(e),
                                            },
                                            Err(e) => Err(e),
                                        },
                                        Err(e) => Err(e),
                                    },
                                    Err(e) => Err(e),
                                },
                                Err(e) => Err(e),
                            },
                            Err(e) => Err(e),
                        },
                        Err(e) => Err(e),
                    },
                    Err(e) => Err(e),
                }
            } else {
                Ok((None, p1))
            }
        },
        Err(e) => Err(e),
    }
}

impl HrdParameters {
    pub fn read(r: &mut RbspBitReader, hrd_parameters_present: &mut bool) -> (res: Result<
        Option<HrdParameters>,
        BitReaderError,
    >)
        requires
            old(r).wf(),
        ensures
            final(r).data@ == old(r).data@,
            final(r).wf(),
            match parse_bool(old(r).data@, old(r).pos as nat) {
                Ok(pr) => *final(hrd_parameters_present) == (*old(hrd_parameters_present)
                    || pr.0),
                Err(_) => *final(hrd_parameters_present) == *old(hrd_parameters_present),
            },
            match res {
                Ok(v) => parse_hrd(old(r).data@, old(r).pos as nat) == Ok::<
                    (Option<HrdParametersView>, nat),
                    BitReaderError,
                >((opt_view(v), final(r).pos as nat)),
                Err(e) => parse_hrd(old(r).data@, old(r).pos as nat) == Err::<
                    (Option<HrdParametersView>, nat),
                    BitReaderError,
                >(e),
            },
    {
        let hrd_parameters_present_flag = match r.read_bool_named("hrd_parameters_present_flag") {
            Ok(b) => b,
            Err(e) => {
                return Err(e);
            },
        };
        *hrd_parameters_present = *hrd_parameters_present || hrd_parameters_present_flag;
        if !hrd_parameters_present_flag {
            return Ok(None);
        }
        let cpb_cnt_minus1 = match r.read_ue_named("cpb_cnt_minus1") {
            Ok(v) => v,
            Err(e) => {
                return Err(e);
            },
        };
        proof {
            crate::rbsp::lemma_ue_val_bound(old(r).data@, (old(r).pos + 1) as nat);
        }
        let cpb_cnt = cpb_cnt_minus1 + 1;
        let bit_rate_scale = match r.read_u8(4) {
            Ok(v) => v,
            Err(e) => {
                return Err(e);
            },
        };
        let cpb_size_scale = match r.read_u8(4) {
            Ok(v) => v,
            Err(e) => {
                return Err(e);
            },
        };
        let cpb_specs = match Self::read_cpb_specs(r, cpb_cnt) {
            Ok(v) => v,
            Err(e) => {
                return Err(e);
            },
        };
        let initial_cpb_removal_delay_length_minus1 = match r.read_u8(5) {
            Ok(v) => v,
            Err(e) => {
                return Err(e);
            },
        };
        let cpb_removal_delay_length_minus1 = match r.read_u8(5) {
            Ok(v) => v,
            Err(e) => {
                return Err(e);
            },
        };
        let dpb_output_delay_length_minus1 = match r.read_u8(5) {
            Ok(v) => v,
            Err(e) => {
                return Err(e);
            },
        };
        let time_offset_length = match r.read_u8(5) {
            Ok(v) => v,
            Err(e) => {
                return Err(e);
            },
        };
        Ok(
            Some(
                HrdParameters {
                    bit_rate_scale,
                    cpb_size_scale,
                    cpb_specs,
                    initial_cpb_removal_delay_length_minus1,
                    cpb_removal_delay_length_minus1,
                    dpb_output_delay_length_minus1,
                    time_offset_length,
                },
            ),
        )
    }

    pub fn read_cpb_specs(r: &mut RbspBitReader, cpb_cnt: u32) -> (res: Result<
        Vec<CpbSpec>,
        BitReaderError,
    >)
        requires
            old(r).wf(),
        ensures
            final(r).data@ == old(r).data@,
            final(r).wf(),
            match res {
                Ok(v) => parse_cpb_list(old(r).data@, old(r).pos as nat, cpb_cnt as nat) == Ok::<
                    (Seq<CpbSpec>, nat),
                    BitReaderError,
                >((v@, final(r).pos as nat)),
                Err(e) => parse_cpb_list(old(r).data@, old(r).pos as nat, cpb_cnt as nat) == Err::<
                    (Seq<CpbSpec>, nat),
                    BitReaderError,
                >(e),
            },
    {
        let ghost d = old(r).data@;
        let ghost pl = old(r).pos as nat;
        let mut cpb_specs: Vec<CpbSpec> = Vec::new();
        let mut i: u32 = 0;
        while i < cpb_cnt
            invariant
                d == old(r).data@,
                pl == old(r).pos as nat,
                r.data@ == d,
                r.wf(),
                i <= cpb_cnt,
                parse_cpb_list(d, pl, cpb_cnt as nat) == (match parse_cpb_list(
                    d,
                    r.pos as nat,
                    (cpb_cnt - i) as nat,
                ) {
                    Ok(pr) => Ok::<(Seq<CpbSpec>, nat), BitReaderError>(
                        (cpb_specs@ + pr.0, pr.1),
                    ),
                    Err(e) => Err::<(Seq<CpbSpec>, nat), BitReaderError>(e),
                }),
            decreases cpb_cnt - i,
        {
            let v = match CpbSpec::read(r) {
                Ok(v) => v,
                Err(e) => {
                    return Err(e);
                },
            };
            proof {
                let m = (cpb_cnt - i) as nat;
                let pr = parse_cpb_list(d, r.pos as nat, (m - 1) as nat);
                if pr is Ok {
                    let (rest, _pe) = pr->Ok_0;
                    assert(cpb_specs@ + (seq![v] + rest) =~= (cpb_specs@ + seq![v]) + rest);
                    assert(cpb_specs@.push(v) =~= cpb_specs@ + seq![v]);
                }
            }
            cpb_specs.push(v);
            i = i + 1;
        }
        proof {
            assert(parse_cpb_list(d, r.pos as nat, 0) == Ok::<(Seq<CpbSpec>, nat), BitReaderError>(
                (Seq::empty(), r.pos as nat),
            ));
            assert(cpb_specs@ + Seq::<CpbSpec>::empty() =~= cpb_specs@);
        }
        Ok(cpb_specs)
    }
}

/// The bitstream-restriction fields a VUI may carry.
#[derive(Debug, Clone, Copy, PartialEq, Eq)]
pub struct BitstreamRestrictions {
    pub motion_vectors_over_pic_boundaries_flag: bool,
    pub max_bytes_per_pic_denom: u32,
    pub max_bits_per_mb_denom: u32,
    pub log2_max_mv_length_horizontal: u32,
    pub log2_max_mv_length_vertical: u32,
    pub max_num_reorder_frames: u32,
    pub max_dec_frame_buffering: u32,
}

/// Result of the optional bitstream restrictions: a presence flag, then a
/// motion-vector flag and six unsigned Exp-Golomb bounds.
pub open spec fn parse_bitstream_restrictions(d: Seq<u8>, p: nat) -> Result<
    (Option<BitstreamRestrictions>, nat),
    BitReaderError,
> {
    match parse_bool(d, p) {
        Ok((present, p1)) => {
            if present {
                match parse_bool(d, p1) {
                    Ok((mv, p2)) => match parse_ue(d, p2) {
                        Ok((bytes_denom, p3)) => match parse_ue(d, p3) {
                            Ok((bits_denom, p4)) => match parse_ue(d, p4) {
                                Ok((mv_h, p5)) => match parse_ue(d, p5) {
                                    Ok((mv_v, p6)) => match parse_ue(d, p6) {
                                        Ok((reorder, p7)) => match parse_ue(d, p7) {
                                            Ok((buffering, p8)) => Ok(
                                                (
                                                    Some(
                                                        BitstreamRestrictions {
                                                            motion_vectors_over_pic_boundaries_flag:
                                                                mv,
                                                            max_bytes_per_pic_denom:
                                                                bytes_denom as u32,
                                                            max_bits_per_mb_denom:
                                                                bits_denom as u32,
                                                            log2_max_mv_length_horizontal:
                                                                mv_h as u32,
                                                            log2_max_mv_length_vertical:
                                                                mv_v as u32,
                                                            max_num_reorder_frames:
                                                                reorder as u32,
                                                            max_dec_frame_buffering:
                                                                buffering as u32,
                                                        },
                                                    ),
                                                    p8,
                                                ),
                                            ),
                                            Err(e) => Err(e),
                                        },
                                        Err(e) => Err(e),
                                    },
                                    Err(e) => Err(e),
                                },
                                Err(e) => Err(e),
                            },
                            Err(e) => Err(e),
                        },
                        Err(e) => Err(e),
                    },
                    Err(e) => Err(e),
                }
            } else {
                Ok((None, p1))
            }
        },
        Err(e) => Err(e),
    }
}

impl BitstreamRestrictions {
    pub fn read(r: &mut RbspBitReader) -> (res: Result<
        Option<BitstreamRestrictions>,
        BitReaderError,
    >)
        requires
            old(r).wf(),
        ensures
            final(r).data@ == old(r).data@,
            final(r).wf(),
            match res {
                Ok(v) => parse_bitstream_restrictions(old(r).data@, old(r).pos as nat) == Ok::<
                    (Option<BitstreamRestrictions>, nat),
                    BitReaderError,
                >((v, final(r).pos as nat)),
                Err(e) => parse_bitstream_restrictions(old(r).data@, old(r).pos as nat) == Err::<
                    (Option<BitstreamRestrictions>, nat),
                    BitReaderError,
                >(e),
            },
    {
        let bitstream_restriction_flag = match r.read_bool() {
            Ok(b) => b,
            Err(e) => {
                return Err(e);
            },
        };
        if !bitstream_restriction_flag {
            return Ok(None);
        }
        let motion_vectors_over_pic_boundaries_flag = match r.read_bool_named(
            "motion_vectors_over_pic_boundaries_flag",
        ) {
            Ok(b) => b,
            Err(e) => {
                return Err(e);
            },
        };
        let max_bytes_per_pic_denom = match r.read_ue_named("max_bytes_per_pic_denom") {
            Ok(v) => v,
            Err(e) => {
                return Err(e);
            },
        };
        let max_bits_per_mb_denom = match r.read_ue_named("max_bits_per_mb_denom") {
            Ok(v) => v,
            Err(e) => {
                return Err(e);
            },
        };
        let log2_max_mv_length_horizontal = match r.read_ue_named("log2_max_mv_length_horizontal") {
            Ok(v) => v,
            Err(e) => {
                return Err(e);
            },
        };
        let log2_max_mv_length_vertical = match r.read_ue_named("log2_max_mv_length_vertical") {
            Ok(v) => v,
            Err(e) => {
                return Err(e);
            },
        };
        let max_num_reorder_frames = match r.read_ue_named("max_num_reorder_frames") {
            Ok(v) => v,
            Err(e) => {
                return Err(e);
            },
        };
        let max_dec_frame_buffering = match r.read_ue_named("max_dec_frame_buffering") {
            Ok(v) => v,
            Err(e) => {
                return Err(e);
            },
        };
        Ok(
            Some(
                BitstreamRestrictions {
                    motion_vectors_over_pic_boundaries_flag,
                    max_bytes_per_pic_denom,
                    max_bits_per_mb_denom,
                    log2_max_mv_length_horizontal,
                    log2_max_mv_length_vertical,
                    max_num_reorder_frames,
                    max_dec_frame_buffering,
                },
            ),
        )
    }
}

/// The Video Usability Information an SPS may carry.
#[derive(Debug, Clone, PartialEq)]
pub struct VuiParameters {
    pub aspect_ratio_info: Option<AspectRatioInfo>,
    pub overscan_appropriate: OverscanAppropriate,
    pub video_signal_type: Option<VideoSignalType>,
    pub chroma_loc_info: Option<ChromaLocInfo>,
    pub timing_info: Option<TimingInfo>,
    pub nal_hrd_parameters: Option<HrdParameters>,
    pub vcl_hrd_parameters: Option<HrdParameters>,
    pub low_delay_hrd_flag: Option<bool>,
    pub pic_struct_present_flag: bool,
    pub bitstream_restrictions: Option<BitstreamRestrictions>,
}

/// The mathematical image of `VuiParameters`, with HRD blocks as views.
pub struct VuiParametersView {
    pub aspect_ratio_info: Option<AspectRatioInfo>,
    pub overscan_appropriate: OverscanAppropriate,
    pub video_signal_type: Option<VideoSignalType>,
    pub chroma_loc_info: Option<ChromaLocInfo>,
    pub timing_info: Option<TimingInfo>,
    pub nal_hrd_parameters: Option<HrdParametersView>,
    pub vcl_hrd_parameters: Option<HrdParametersView>,
    pub low_delay_hrd_flag: Option<bool>,
    pub pic_struct_present_flag: bool,
    pub bitstream_restrictions: Option<BitstreamRestrictions>,
}

impl View for VuiParameters {
    type V = VuiParametersView;

    open spec fn view(&self) -> VuiParametersView {
        VuiParametersView {
            aspect_ratio_info: self.aspect_ratio_info,
            overscan_appropriate: self.overscan_appropriate,
            video_signal_type: self.video_signal_type,
            chroma_loc_info: self.chroma_loc_info,
            timing_info: self.timing_info,
            nal_hrd_parameters: opt_view(self.nal_hrd_parameters),
            vcl_hrd_parameters: opt_view(self.vcl_hrd_parameters),
            low_delay_hrd_flag: self.low_delay_hrd_flag,
            pic_struct_present_flag: self.pic_struct_present_flag,
            bitstream_restrictions: self.bitstream_restrictions,
        }
    }
}

/// Result of the optional VUI: a presence flag; when set, the aspect-ratio,
/// overscan, video-signal, chroma-location and timing syntax, two optional HRD
/// blocks, a low-delay flag present only if at least one HRD block is, a
/// picture-structure flag, and optional bitstream restrictions.
pub open spec fn parse_vui(d: Seq<u8>, p: nat) -> Result<
    (Option<VuiParametersView>, nat),
    BitReaderError,
> {
    match parse_bool(d, p) {
        Ok((present, p1)) => {
            if present {
                match parse_aspect_ratio_info(d, p1) {
                    Ok((ar, p2)) => match parse_overscan(d, p2) {
                        Ok((ov, p3)) => match parse_video_signal_type(d, p3) {
                            Ok((vst, p4)) => match parse_chroma_loc_info(d, p4) {
                                Ok((cli, p5)) => match parse_timing_info(d, p5) {
                                    Ok((ti, p6)) => match parse_hrd(d, p6) {
                                        Ok((nal_hrd, p7)) => match parse_hrd(d, p7) {
                                            Ok((vcl_hrd, p8)) => {
                                                let ld_r = if nal_hrd is Some || vcl_hrd is Some {
                                                    match parse_bool(d, p8) {
                                                        Ok((b, p9)) => Ok((Some(b), p9)),
                                                        Err(e) => Err(e),
                                                    }
                                                } else {
                                                    Ok((None::<bool>, p8))
                                                };
                                                match ld_r {
                                                    Ok((low_delay, p9)) => match parse_bool(
                                                        d,
                                                        p9,
                                                    ) {
                                                        Ok((pic_struct, p10)) => match parse_bitstream_restrictions(
                                                            d,
                                                            p10,
                                                        ) {
                                                            Ok((br, p11)) => Ok(
                                                                (
                                                                    Some(
                                                                        VuiParametersView {
                                                                            aspect_ratio_info: ar,
                                                                            overscan_appropriate:
                                                                                ov,
                                                                            video_signal_type: vst,
                                                                            chroma_loc_info: cli,
                                                                            timing_info: ti,
                                                                            nal_hrd_parameters:
                                                                                nal_hrd,
                                                                            vcl_hrd_parameters:
                                                                                vcl_hrd,
                                                                            low_delay_hrd_flag:
                                                                                low_delay,
                                                                            pic_struct_present_flag:
                                                                                pic_struct,
                                                                            bitstream_restrictions:
                                                                                br,
                                                                        },
                                                                    ),
                                                                    p11,
                                                                ),
                                                            ),
                                                            Err(e) => Err(e),
                                                        },
                                                        Err(e) => Err(e),
                                                    },
                                                    Err(e) => Err(e),
                                                }
                                            },
                                            Err(e) => Err(e),
                                        },
                                        Err(e) => Err(e),
                                    },
                                    Err(e) => Err(e),
                                },
                                Err(e) => Err(e),
                            },
                            Err(e) => Err(e),
                        },
                        Err(e) => Err(e),
                    },
                    Err(e) => Err(e),
                }
            } else {
                Ok((None, p1))
            }
        },
        Err(e) => Err(e),
    }
}

impl VuiParameters {
    pub fn read(r: &mut RbspBitReader) -> (res: Result<Option<VuiParameters>, BitReaderError>)
        requires
            old(r).wf(),
        ensures
            final(r).data@ == old(r).data@,
            final(r).wf(),
            match res {
                Ok(v) => parse_vui(old(r).data@, old(r).pos as nat) == Ok::<
                    (Option<VuiParametersView>, nat),
                    BitReaderError,
                >((opt_view(v), final(r).pos as nat)),
                Err(e) => parse_vui(old(r).data@, old(r).pos as nat) == Err::<
                    (Option<VuiParametersView>, nat),
                    BitReaderError,
                >(e),
            },
    {
        let vui_parameters_present_flag = match r.read_bool() {
            Ok(b) => b,
            Err(e) => {
                return Err(e);
            },
        };
        if !vui_parameters_present_flag {
            return Ok(None);
        }
        let mut hrd_parameters_present = false;
        let aspect_ratio_info = match AspectRatioInfo::read(r) {
            Ok(v) => v,
            Err(e) => {
                return Err(e);
            },
        };
        let overscan_appropriate = match OverscanAppropriate::read(r) {
            Ok(v) => v,
            Err(e) => {
                return Err(e);
            },
        };
        let video_signal_type = match VideoSignalType::read(r) {
            Ok(v) => v,
            Err(e) => {
                return Err(e);
            },
        };
        let chroma_loc_info = match ChromaLocInfo::read(r) {
            Ok(v) => v,
            Err(e) => {
                return Err(e);
            },
        };
        let timing_info = match TimingInfo::read(r) {
            Ok(v) => v,
            Err(e) => {
                return Err(e);
            },
        };
        let nal_hrd_parameters = match HrdParameters::read(r, &mut hrd_parameters_present) {
            Ok(v) => v,
            Err(e) => {
                return Err(e);
            },
        };
        let vcl_hrd_parameters = match HrdParameters::read(r, &mut hrd_parameters_present) {
            Ok(v) => v,
            Err(e) => {
                return Err(e);
            },
        };
        let low_delay_hrd_flag = if hrd_parameters_present {
            match r.read_bool_named("low_delay_hrd_flag") {
                Ok(b) => Some(b),
                Err(e) => {
                    return Err(e);
                },
            }
        } else {
            None
        };
        let pic_struct_present_flag = match r.read_bool_named("pic_struct_present_flag") {
            Ok(b) => b,
            Err(e) => {
                return Err(e);
            },
        };
        let bitstream_restrictions = match BitstreamRestrictions::read(r) {
            Ok(v) => v,
            Err(e) => {
                return Err(e);
            },
        };
        Ok(
            Some(
                VuiParameters {
                    aspect_ratio_info,
                    overscan_appropriate,
                    video_signal_type,
                    chroma_loc_info,
                    timing_info,
                    nal_hrd_parameters,
                    vcl_hrd_parameters,
                    low_delay_hrd_flag,
                    pic_struct_present_flag,
                    bitstream_restrictions,
                },
            ),
        )
    }
}

/// Result of the `log2_max_frame_num_minus4` field, bounded to `[0, 12]` so
/// the frame-number bit width lies in `[4, 16]`.
pub open spec fn parse_log2_max_frame_num(d: Seq<u8>, p: nat) -> Result<(u8, nat), SpsError> {
    match parse_ue(d, p) {
        Ok((v, p1)) => {
            if v > 12 {
                Err(SpsError::Log2MaxFrameNumMinus4OutOfRange(v as u32))
            } else {
                Ok((v as u8, p1))
            }
        },
        Err(e) => Err(SpsError::ReaderError(e)),
    }
}

/// Result of a whole Sequence Parameter Set, decoded from the start of the
/// RBSP buffer: the three fixed header bytes, the parameter-set id (bounded to
/// `[0, 31]`), the chroma information for profiles that signal it, the
/// frame-numbering width, the picture-order-count syntax, the reference-frame
/// and geometry fields, the optional cropping rectangle, and the optional VUI.
pub open spec fn parse_seq_parameter_set(d: Seq<u8>) -> Result<(SeqParameterSetView, nat), SpsError> {
    match parse_bits(d, 0, 8) {
        Ok((profile, p1)) => match parse_bits(d, p1, 8) {
            Ok((flags, p2)) => match parse_bits(d, p2, 8) {
                Ok((level, p3)) => match parse_ue(d, p3) {
                    Ok((id, p4)) => {
                        if id > 31 {
                            Err(
                                SpsError::BadSeqParamSetId(
                                    ParamSetIdError::IdTooLarge(id as u32),
                                ),
                            )
                        } else {
                            match parse_chroma_info(d, p4, ProfileIdc(profile as u8)) {
                                Ok((chroma, p5)) => match parse_log2_max_frame_num(d, p5) {
                                    Ok((l2mfn, p6)) => match parse_pic_order_cnt(d, p6) {
                                        Ok((poc, p7)) => match parse_ue(d, p7) {
                                            Ok((mnrf, p8)) => match parse_bool(d, p8) {
                                                Ok((gaps, p9)) => match parse_ue(d, p9) {
                                                    Ok((w, p10)) => match parse_ue(d, p10) {
                                                        Ok((h, p11)) => match parse_frame_mbs_flags(
                                                            d,
                                                            p11,
                                                        ) {
                                                            Ok((fmf, p12)) => match parse_bool(
                                                                d,
                                                                p12,
                                                            ) {
                                                                Ok((d8, p13)) => match parse_frame_cropping(
                                                                    d,
                                                                    p13,
                                                                ) {
                                                                    Ok((fc, p14)) => match parse_vui(
                                                                        d,
                                                                        p14,
                                                                    ) {
                                                                        Ok((vui, p15)) => Ok(
                                                                            (
                                                                                SeqParameterSetView {
                                                                                    profile_idc: ProfileIdc(
                                                                                        profile as u8,
                                                                                    ),
                                                                                    constraint_flags:
                                                                                        ConstraintFlags(
                                                                                        flags as u8,
                                                                                    ),
                                                                                    level_idc:
                                                                                        level as u8,
                                                                                    seq_parameter_set_id:
                                                                                        ParamSetId(
                                                                                        id as u8,
                                                                                    ),
                                                                                    chroma_info:
                                                                                        chroma,
                                                                                    log2_max_frame_num_minus4:
                                                                                        l2mfn,
                                                                                    pic_order_cnt:
                                                                                        poc,
                                                                                    max_num_ref_frames:
                                                                                        mnrf as u32,
                                                                                    gaps_in_frame_num_value_allowed_flag:
                                                                                        gaps,
                                                                                    pic_width_in_mbs_minus1:
                                                                                        w as u32,
                                                                                    pic_height_in_map_units_minus1:
                                                                                        h as u32,
                                                                                    frame_mbs_flags:
                                                                                        fmf,
                                                                                    direct_8x8_inference_flag:
                                                                                        d8,
                                                                                    frame_cropping:
                                                                                        fc,
                                                                                    vui_parameters:
                                                                                        vui,
                                                                                },
                                                                                p15,
                                                                            ),
                                                                        ),
                                                                        Err(e) => Err(
                                                                            SpsError::ReaderError(
                                                                                e,
                                                                            ),
                                                                        ),
                                                                    },
                                                                    Err(e) => Err(
                                                                        SpsError::ReaderError(e),
                                                                    ),
                                                                },
                                                                Err(e) => Err(
                                                                    SpsError::ReaderError(e),
                                                                ),
                                                            },
                                                            Err(e) => Err(SpsError::ReaderError(e)),
                                                        },
                                                        Err(e) => Err(SpsError::ReaderError(e)),
                                                    },
                                                    Err(e) => Err(SpsError::ReaderError(e)),
                                                },
                                                Err(e) => Err(SpsError::ReaderError(e)),
                                            },
                                            Err(e) => Err(SpsError::ReaderError(e)),
                                        },
                                        Err(e) => Err(SpsError::PicOrderCnt(e)),
                                    },
                                    Err(e) => Err(e),
                                },
                                Err(e) => Err(e),
                            }
                        }
                    },
                    Err(e) => Err(SpsError::ReaderError(e)),
                },
                Err(e) => Err(SpsError::ReaderError(e)),
            },
            Err(e) => Err(SpsError::ReaderError(e)),
        },
        Err(e) => Err(SpsError::ReaderError(e)),
    }
}

/// A parse of a whole SPS only succeeds with a parameter-set id in the legal
/// range.
pub proof fn lemma_parse_sps_id_in_range(d: Seq<u8>)
    ensures
        parse_seq_parameter_set(d) matches Ok(pr) ==> pr.0.seq_parameter_set_id.0 <= 31,
{
}


/// An HRD block decoded from the bitstream has its CPB removal-delay length
/// field in the five-bit range: the field is read from five bits.
pub proof fn lemma_parse_hrd_cpb_len(d: Seq<u8>, p: nat)
    ensures
        parse_hrd(d, p) matches Ok(pr) ==> (match pr.0 {
            Some(h) => h.cpb_removal_delay_length_minus1 <= 31,
            None => true,
        }),
{
    match parse_bool(d, p) {
        Ok((present, p1)) => {
            if present {
                match parse_ue(d, p1) {
                    Ok((cnt, p2)) => match parse_bits(d, p2, 4) {
                        Ok(pr3) => match parse_bits(d, pr3.1, 4) {
                            Ok(pr4) => match parse_cpb_list(d, pr4.1, cnt + 1) {
                                Ok(pr5) => match parse_bits(d, pr5.1, 5) {
                                    Ok(pr6) => {
                                        lemma_bits_val_bound(d, pr6.1, 5);
                                        lemma2_to64();
                                    },
                                    Err(_) => {},
                                },
                                Err(_) => {},
                            },
                            Err(_) => {},
                        },
                        Err(_) => {},
                    },
                    Err(_) => {},
                }
            }
        },
        Err(_) => {},
    }
}

/// The HRD length fields of one SPS lie in the five-bit range.  This holds of
/// every decoded SPS (`lemma_parse_sps_hrd_lengths`), since the fields are
/// read from five bits.
pub open spec fn sps_hrd_lengths_ok(sps: SeqParameterSetView) -> bool {
    match sps.vui_parameters {
        Some(vui) => (match vui.nal_hrd_parameters {
            Some(h) => h.cpb_removal_delay_length_minus1 <= 31,
            None => true,
        }) && (match vui.vcl_hrd_parameters {
            Some(h) => h.cpb_removal_delay_length_minus1 <= 31,
            None => true,
        }),
        None => true,
    }
}

/// A VUI decoded from the bitstream has the CPB removal-delay length of each
/// of its HRD blocks in the five-bit range.
pub proof fn lemma_parse_vui_hrd_lengths(d: Seq<u8>, p: nat)
    ensures
        parse_vui(d, p) matches Ok(pr) ==> (match pr.0 {
            Some(v) => (match v.nal_hrd_parameters {
                Some(h) => h.cpb_removal_delay_length_minus1 <= 31,
                None => true,
            }) && (match v.vcl_hrd_parameters {
                Some(h) => h.cpb_removal_delay_length_minus1 <= 31,
                None => true,
            }),
            None => true,
        }),
{
    match parse_bool(d, p) {
        Ok((present, p1)) => {
            if present {
                match parse_aspect_ratio_info(d, p1) {
                    Ok(pr2) => match parse_overscan(d, pr2.1) {
                        Ok(pr3) => match parse_video_signal_type(d, pr3.1) {
                            Ok(pr4) => match parse_chroma_loc_info(d, pr4.1) {
                                Ok(pr5) => match parse_timing_info(d, pr5.1) {
                                    Ok(pr6) => {
                                        lemma_parse_hrd_cpb_len(d, pr6.1);
                                        match parse_hrd(d, pr6.1) {
                                            Ok(pr7) => {
                                                lemma_parse_hrd_cpb_len(d, pr7.1);
                                            },
                                            Err(_) => {},
                                        }
                                    },
                                    Err(_) => {},
                                },
                                Err(_) => {},
                            },
                            Err(_) => {},
                        },
                        Err(_) => {},
                    },
                    Err(_) => {},
                }
            }
        },
        Err(_) => {},
    }
}

/// Law: every successfully parsed SPS has the CPB removal-delay length of
/// each HRD block its VUI carries in the five-bit range, so a registry filled
/// only with decoded parameter sets satisfies the buffering-period decoder's
/// precondition.
pub proof fn lemma_parse_sps_hrd_lengths(d: Seq<u8>)
    ensures
        parse_seq_parameter_set(d) matches Ok(pr) ==> sps_hrd_lengths_ok(pr.0),
{
    match parse_bits(d, 0, 8) {
        Ok(pr1) => match parse_bits(d, pr1.1, 8) {
            Ok(pr2) => match parse_bits(d, pr2.1, 8) {
                Ok(pr3) => match parse_ue(d, pr3.1) {
                    Ok(pr4) => {
                        if pr4.0 <= 31 {
                            match parse_chroma_info(d, pr4.1, ProfileIdc(pr1.0 as u8)) {
                                Ok(pr5) => match parse_log2_max_frame_num(d, pr5.1) {
                                    Ok(pr6) => match parse_pic_order_cnt(d, pr6.1) {
                                        Ok(pr7) => match parse_ue(d, pr7.1) {
                                            Ok(pr8) => match parse_bool(d, pr8.1) {
                                                Ok(pr9) => match parse_ue(d, pr9.1) {
                                                    Ok(pr10) => match parse_ue(d, pr10.1) {
                                                        Ok(pr11) => match parse_frame_mbs_flags(
                                                            d,
                                                            pr11.1,
                                                        ) {
                                                            Ok(pr12) => match parse_bool(
                                                                d,
                                                                pr12.1,
                                                            ) {
                                                                Ok(pr13) => match parse_frame_cropping(
                                                                    d,
                                                                    pr13.1,
                                                                ) {
                                                                    Ok(pr14) => {
                                                                        lemma_parse_vui_hrd_lengths(
                                                                            d,
                                                                            pr14.1,
                                                                        );
                                                                    },
                                                                    Err(_) => {},
                                                                },
                                                                Err(_) => {},
                                                            },
                                                            Err(_) => {},
                                                        },
                                                        Err(_) => {},
                                                    },
                                                    Err(_) => {},
                                                },
                                                Err(_) => {},
                                            },
                                            Err(_) => {},
                                        },
                                        Err(_) => {},
                                    },
                                    Err(_) => {},
                                },
                                Err(_) => {},
                            }
                        }
                    },
                    Err(_) => {},
                },
                Err(_) => {},
            },
            Err(_) => {},
        },
        Err(_) => {},
    }
}

/// Law: every successfully parsed SPS satisfies the stored-range invariants:
/// the parameter-set id lies in [0, 31]; the frame-numbering width and, for
/// picture-order-count type 0, the count-LSB width are stored minus-4 in
/// [0, 12]; the bit depths are stored minus-8 in [0, 6].
#[verifier::rlimit(60)]
pub proof fn lemma_parse_sps_field_ranges(d: Seq<u8>)
    ensures
        parse_seq_parameter_set(d) matches Ok(pr) ==> {
            let s = pr.0;
            &&& s.seq_parameter_set_id.0 <= 31
            &&& s.log2_max_frame_num_minus4 <= 12
            &&& s.chroma_info.bit_depth_luma_minus8 <= 6
            &&& s.chroma_info.bit_depth_chroma_minus8 <= 6
            &&& (s.pic_order_cnt matches PicOrderCntTypeView::TypeZero {
                log2_max_pic_order_cnt_lsb_minus4,
            } ==> log2_max_pic_order_cnt_lsb_minus4 <= 12)
        },
{
}

/// A decoded Sequence Parameter Set.
#[derive(Debug, Clone, PartialEq)]
pub struct SeqParameterSet {
    pub profile_idc: ProfileIdc,
    pub constraint_flags: ConstraintFlags,
    pub level_idc: u8,
    pub seq_parameter_set_id: ParamSetId,
    pub chroma_info: ChromaInfo,
    pub log2_max_frame_num_minus4: u8,
    pub pic_order_cnt: PicOrderCntType,
    pub max_num_ref_frames: u32,
    pub gaps_in_frame_num_value_allowed_flag: bool,
    pub pic_width_in_mbs_minus1: u32,
    pub pic_height_in_map_units_minus1: u32,
    pub frame_mbs_flags: FrameMbsFlags,
    pub direct_8x8_inference_flag: bool,
    pub frame_cropping: Option<FrameCropping>,
    pub vui_parameters: Option<VuiParameters>,
}

/// The mathematical image of `SeqParameterSet`.
pub struct SeqParameterSetView {
    pub profile_idc: ProfileIdc,
    pub constraint_flags: ConstraintFlags,
    pub level_idc: u8,
    pub seq_parameter_set_id: ParamSetId,
    pub chroma_info: ChromaInfo,
    pub log2_max_frame_num_minus4: u8,
    pub pic_order_cnt: PicOrderCntTypeView,
    pub max_num_ref_frames: u32,
    pub gaps_in_frame_num_value_allowed_flag: bool,
    pub pic_width_in_mbs_minus1: u32,
    pub pic_height_in_map_units_minus1: u32,
    pub frame_mbs_flags: FrameMbsFlags,
    pub direct_8x8_inference_flag: bool,
    pub frame_cropping: Option<FrameCropping>,
    pub vui_parameters: Option<VuiParametersView>,
}

impl View for SeqParameterSet {
    type V = SeqParameterSetView;

    open spec fn view(&self) -> SeqParameterSetView {
        SeqParameterSetView {
            profile_idc: self.profile_idc,
            constraint_flags: self.constraint_flags,
            level_idc: self.level_idc,
            seq_parameter_set_id: self.seq_parameter_set_id,
            chroma_info: self.chroma_info,
            log2_max_frame_num_minus4: self.log2_max_frame_num_minus4,
            pic_order_cnt: self.pic_order_cnt@,
            max_num_ref_frames: self.max_num_ref_frames,
            gaps_in_frame_num_value_allowed_flag: self.gaps_in_frame_num_value_allowed_flag,
            pic_width_in_mbs_minus1: self.pic_width_in_mbs_minus1,
            pic_height_in_map_units_minus1: self.pic_height_in_map_units_minus1,
            frame_mbs_flags: self.frame_mbs_flags,
            direct_8x8_inference_flag: self.direct_8x8_inference_flag,
            frame_cropping: self.frame_cropping,
            vui_parameters: opt_view(self.vui_parameters),
        }
    }
}

/// The display pixel dimensions an SPS describes: the macroblock grid scaled
/// by 16, doubled vertically for field coding, less the optional cropping
/// rectangle scaled by the chroma subsampling steps.  A scaling product beyond
/// `u32` is a `FieldValueTooLarge` error naming the offending field; cropping
/// that would remove more pixels than exist is a `CroppingError` carrying the
/// cropping record.
pub open spec fn spec_pixel_dimensions(s: SeqParameterSetView) -> Result<(u32, u32), SpsError> {
    let width = (s.pic_width_in_mbs_minus1 + 1) * 16;
    let mul: int = match s.frame_mbs_flags {
        FrameMbsFlags::Fields { .. } => 2,
        FrameMbsFlags::Frames => 1,
    };
    let step_x: int = if s.chroma_info.chroma_format == ChromaFormat::YUV420
        || s.chroma_info.chroma_format == ChromaFormat::YUV422 {
        2
    } else {
        1
    };
    let step_y: int = mul * (if s.chroma_info.chroma_format == ChromaFormat::YUV420 {
        2int
    } else {
        1int
    });
    let height = (s.pic_height_in_map_units_minus1 + 1) * (mul * 16);
    if width > u32::MAX {
        Err(
            SpsError::FieldValueTooLarge {
                name: "pic_width_in_mbs_minus1",
                value: s.pic_width_in_mbs_minus1,
            },
        )
    } else if height > u32::MAX {
        Err(
            SpsError::FieldValueTooLarge {
                name: "pic_height_in_map_units_minus1",
                value: s.pic_height_in_map_units_minus1,
            },
        )
    } else {
        match s.frame_cropping {
            Some(crop) => {
                if crop.left_offset * step_x > u32::MAX {
                    Err(SpsError::FieldValueTooLarge { name: "left_offset", value: crop.left_offset })
                } else if crop.right_offset * step_x > u32::MAX {
                    Err(
                        SpsError::FieldValueTooLarge {
                            name: "right_offset",
                            value: crop.right_offset,
                        },
                    )
                } else if crop.top_offset * step_y > u32::MAX {
                    Err(SpsError::FieldValueTooLarge { name: "top_offset", value: crop.top_offset })
                } else if crop.bottom_offset * step_y > u32::MAX {
                    Err(
                        SpsError::FieldValueTooLarge {
                            name: "bottom_offset",
                            value: crop.bottom_offset,
                        },
                    )
                } else if width - crop.left_offset * step_x - crop.right_offset * step_x < 0
                    || height - crop.top_offset * step_y - crop.bottom_offset * step_y < 0 {
                    Err(SpsError::CroppingError(crop))
                } else {
                    Ok(
                        (
                            (width - crop.left_offset * step_x - crop.right_offset * step_x) as u32,
                            (height - crop.top_offset * step_y - crop.bottom_offset * step_y) as u32,
                        ),
                    )
                }
            },
            None => Ok((width as u32, height as u32)),
        }
    }
}

impl SeqParameterSet {
    /// Decodes a whole SPS from the start of an RBSP buffer.
    pub fn from_bytes(buf: &[u8]) -> (res: Result<SeqParameterSet, SpsError>)
        requires
            buf@.len() * 8 <= usize::MAX as nat,
        ensures
            match res {
                Ok(v) => parse_seq_parameter_set(buf@) matches Ok(pr) && pr.0 == v@,
                Err(e) => parse_seq_parameter_set(buf@) == Err::<
                    (SeqParameterSetView, nat),
                    SpsError,
                >(e),
            },
    {
        let mut r = RbspBitReader::new(buf);
        let profile_u8 = match r.read_u8(8) {
            Ok(v) => v,
            Err(e) => {
                return Err(SpsError::ReaderError(e));
            },
        };
        let profile_idc = ProfileIdc(profile_u8);
        let flags_u8 = match r.read_u8(8) {
            Ok(v) => v,
            Err(e) => {
                return Err(SpsError::ReaderError(e));
            },
        };
        let level_idc = match r.read_u8(8) {
            Ok(v) => v,
            Err(e) => {
                return Err(SpsError::ReaderError(e));
            },
        };
        let id_raw = match r.read_ue_named("seq_parameter_set_id") {
            Ok(v) => v,
            Err(e) => {
                return Err(SpsError::ReaderError(e));
            },
        };
        let seq_parameter_set_id = match ParamSetId::from_u32(id_raw) {
            Ok(v) => v,
            Err(e) => {
                return Err(SpsError::BadSeqParamSetId(e));
            },
        };
        let chroma_info = match ChromaInfo::read(&mut r, profile_idc) {
            Ok(v) => v,
            Err(e) => {
                return Err(e);
            },
        };
        let log2_max_frame_num_minus4 = match Self::read_log2_max_frame_num_minus4(&mut r) {
            Ok(v) => v,
            Err(e) => {
                return Err(e);
            },
        };
        let pic_order_cnt = match PicOrderCntType::read(&mut r) {
            Ok(v) => v,
            Err(e) => {
                return Err(SpsError::PicOrderCnt(e));
            },
        };
        let max_num_ref_frames = match r.read_ue() {
            Ok(v) => v,
            Err(e) => {
                return Err(SpsError::ReaderError(e));
            },
        };
        let gaps_in_frame_num_value_allowed_flag = match r.read_bool() {
            Ok(b) => b,
            Err(e) => {
                return Err(SpsError::ReaderError(e));
            },
        };
        let pic_width_in_mbs_minus1 = match r.read_ue() {
            Ok(v) => v,
            Err(e) => {
                return Err(SpsError::ReaderError(e));
            },
        };
        let pic_height_in_map_units_minus1 = match r.read_ue() {
            Ok(v) => v,
            Err(e) => {
                return Err(SpsError::ReaderError(e));
            },
        };
        let frame_mbs_flags = match FrameMbsFlags::read(&mut r) {
            Ok(v) => v,
            Err(e) => {
                return Err(SpsError::ReaderError(e));
            },
        };
        let direct_8x8_inference_flag = match r.read_bool() {
            Ok(b) => b,
            Err(e) => {
                return Err(SpsError::ReaderError(e));
            },
        };
        let frame_cropping = match FrameCropping::read(&mut r) {
            Ok(v) => v,
            Err(e) => {
                return Err(SpsError::ReaderError(e));
            },
        };
        let vui_parameters = match VuiParameters::read(&mut r) {
            Ok(v) => v,
            Err(e) => {
                return Err(SpsError::ReaderError(e));
            },
        };
        Ok(
            SeqParameterSet {
                profile_idc,
                constraint_flags: ConstraintFlags(flags_u8),
                level_idc,
                seq_parameter_set_id,
                chroma_info,
                log2_max_frame_num_minus4,
                pic_order_cnt,
                max_num_ref_frames,
                gaps_in_frame_num_value_allowed_flag,
                pic_width_in_mbs_minus1,
                pic_height_in_map_units_minus1,
                frame_mbs_flags,
                direct_8x8_inference_flag,
                frame_cropping,
                vui_parameters,
            },
        )
    }

    pub fn read_log2_max_frame_num_minus4(r: &mut RbspBitReader) -> (res: Result<u8, SpsError>)
        requires
            old(r).wf(),
        ensures
            final(r).data@ == old(r).data@,
            final(r).wf(),
            match res {
                Ok(v) => parse_log2_max_frame_num(old(r).data@, old(r).pos as nat) == Ok::<
                    (u8, nat),
                    SpsError,
                >((v, final(r).pos as nat)),
                Err(e) => parse_log2_max_frame_num(old(r).data@, old(r).pos as nat) == Err::<
                    (u8, nat),
                    SpsError,
                >(e),
            },
    {
        let val = match r.read_ue() {
            Ok(v) => v,
            Err(e) => {
                return Err(SpsError::ReaderError(e));
            },
        };
        if val > 12 {
            Err(SpsError::Log2MaxFrameNumMinus4OutOfRange(val))
        } else {
            Ok(val as u8)
        }
    }

    pub fn profile(&self) -> (p: Profile)
        ensures
            p == spec_profile(self.profile_idc.0),
    {
        Profile::from_profile_idc(self.profile_idc)
    }

    pub fn level(&self) -> (l: Level)
        ensures
            l == spec_level(self.constraint_flags.spec_flag3(), self.level_idc),
    {
        Level::from_constraint_flags_and_level_idc(self.constraint_flags, self.level_idc)
    }

    /// The frame-numbering bit width; the returned value lies in `[4, 16]`.
    pub fn log2_max_frame_num(&self) -> (v: u8)
        requires
            self.log2_max_frame_num_minus4 <= 12,
        ensures
            v == self.log2_max_frame_num_minus4 + 4,
            4 <= v <= 16,
    {
        self.log2_max_frame_num_minus4 + 4
    }

    /// Calculates the pixel dimensions of the video image specified by this
    /// SPS, taking sample format, interlacing and cropping into account.
    pub fn pixel_dimensions(&self) -> (res: Result<(u32, u32), SpsError>)
        ensures
            res == spec_pixel_dimensions(self@),
    {
        let width64: u64 = (self.pic_width_in_mbs_minus1 as u64 + 1) * 16;
        let mul: u64 = match self.frame_mbs_flags {
            FrameMbsFlags::Fields { .. } => 2,
            FrameMbsFlags::Frames => 1,
        };
        let is_420 = match self.chroma_info.chroma_format {
            ChromaFormat::YUV420 => true,
            _ => false,
        };
        let is_422 = match self.chroma_info.chroma_format {
            ChromaFormat::YUV422 => true,
            _ => false,
        };
        let step_x: u64 = if is_420 || is_422 {
            2
        } else {
            1
        };
        let step_y: u64 = mul * (if is_420 {
            2
        } else {
            1
        });
        proof {
            assert((self.pic_height_in_map_units_minus1 as u64 + 1) * (mul * 16)
                <= 0x20_0000_0000) by (nonlinear_arith)
                requires
                    mul <= 2,
                    self.pic_height_in_map_units_minus1 <= u32::MAX,
            ;
        }
        let height64: u64 = (self.pic_height_in_map_units_minus1 as u64 + 1) * (mul * 16);
        if width64 > u32::MAX as u64 {
            return Err(
                SpsError::FieldValueTooLarge {
                    name: "pic_width_in_mbs_minus1",
                    value: self.pic_width_in_mbs_minus1,
                },
            );
        }
        if height64 > u32::MAX as u64 {
            return Err(
                SpsError::FieldValueTooLarge {
                    name: "pic_height_in_map_units_minus1",
                    value: self.pic_height_in_map_units_minus1,
                },
            );
        }
        match &self.frame_cropping {
            Some(crop) => {
                let left = crop.left_offset as u64 * step_x;
                if left > u32::MAX as u64 {
                    return Err(
                        SpsError::FieldValueTooLarge {
                            name: "left_offset",
                            value: crop.left_offset,
                        },
                    );
                }
                let right = crop.right_offset as u64 * step_x;
                if right > u32::MAX as u64 {
                    return Err(
                        SpsError::FieldValueTooLarge {
                            name: "right_offset",
                            value: crop.right_offset,
                        },
                    );
                }
                proof {
                    assert(crop.top_offset as u64 * step_y <= 0x4_0000_0000) by (nonlinear_arith)
                        requires
                            step_y <= 4,
                            crop.top_offset <= u32::MAX,
                    ;
                }
                let top = crop.top_offset as u64 * step_y;
                if top > u32::MAX as u64 {
                    return Err(
                        SpsError::FieldValueTooLarge {
                            name: "top_offset",
                            value: crop.top_offset,
                        },
                    );
                }
                proof {
                    assert(crop.bottom_offset as u64 * step_y <= 0x4_0000_0000)
                        by (nonlinear_arith)
                        requires
                            step_y <= 4,
                            crop.bottom_offset <= u32::MAX,
                    ;
                }
                let bottom = crop.bottom_offset as u64 * step_y;
                if bottom > u32::MAX as u64 {
                    return Err(
                        SpsError::FieldValueTooLarge {
                            name: "bottom_offset",
                            value: crop.bottom_offset,
                        },
                    );
                }
                if left + right > width64 || top + bottom > height64 {
                    return Err(SpsError::CroppingError(crop.clone()));
                }
                Ok(((width64 - left - right) as u32, (height64 - top - bottom) as u32))
            },
            None => Ok((width64 as u32, height64 as u32)),
        }
    }
}

/// The per-unit streaming shell for SPS NAL units: `start` opens a unit of the
/// right type, `push` accumulates its bytes (fragmented delivery is allowed),
/// and `end` decodes the accumulated buffer and commits the result into the
/// registry.  A malformed unit is discarded without disturbing the session.
pub struct SeqParameterSetNalHandler {
    pub buf: Vec<u8>,
}

impl Default for SeqParameterSetNalHandler {
    fn default() -> (r: Self)
        ensures
            r.buf@.len() == 0,
    {
        SeqParameterSetNalHandler { buf: Vec::new() }
    }
}

impl SeqParameterSetNalHandler {
    /// Opens a unit.  The header's unit type must be the SPS type this shell
    /// handles: callers dispatch on `NalHeader::nal_unit_type` before starting
    /// a unit.  The shell keeps no per-unit state beyond its buffer, so
    /// opening changes nothing.
    pub fn start(&mut self, _ctx: &mut Context, header: NalHeader)
        requires
            spec_unit_type((header.0 % 32) as u8) == UnitType::SeqParameterSet,
        ensures
            *final(self) == *old(self),
            *final(_ctx) == *old(_ctx),
    {
    }

    /// Appends a fragment of the unit's RBSP bytes to the accumulation buffer.
    pub fn push(&mut self, _ctx: &mut Context, buf: &[u8])
        ensures
            final(self).buf@ == old(self).buf@ + buf@,
            *final(_ctx) == *old(_ctx),
    {
        let ghost b0 = self.buf@;
        let mut i: usize = 0;
        while i < buf.len()
            invariant
                i <= buf@.len(),
                self.buf@ == b0 + buf@.subrange(0, i as int),
            decreases buf@.len() - i,
        {
            proof {
                assert(b0 + buf@.subrange(0, (i + 1) as int) =~= (b0 + buf@.subrange(0, i as int)).push(
                    buf@[i as int],
                ));
            }
            self.buf.push(buf[i]);
            i = i + 1;
        }
        proof {
            assert(buf@.subrange(0, buf@.len() as int) =~= buf@);
        }
    }

    /// Decodes the accumulated buffer as an SPS, clears the buffer so the
    /// shell is reusable, and on success commits the result to the registry;
    /// on failure the unit is discarded and the registry is untouched.
    pub fn end(&mut self, ctx: &mut Context)
        requires
            old(ctx).wf(),
        ensures
            final(self).buf@.len() == 0,
            final(ctx).wf(),
            ({
                let b = old(self).buf@;
                if b.len() * 8 <= usize::MAX as nat {
                    match parse_seq_parameter_set(b) {
                        Ok(pr) => final(ctx)@ == old(ctx)@.update(
                            pr.0.seq_parameter_set_id.0 as int,
                            Some(pr.0),
                        ),
                        Err(_) => final(ctx)@ == old(ctx)@,
                    }
                } else {
                    final(ctx)@ == old(ctx)@
                }
            }),
    {
        proof {
            lemma_parse_sps_id_in_range(self.buf@);
        }
        if self.buf.len() <= usize::MAX / 8 {
            let sps = SeqParameterSet::from_bytes(self.buf.as_slice());
            self.buf.clear();
            if let Ok(sps) = sps {
                ctx.put_seq_param_set(sps);
            }
        } else {
            self.buf.clear();
        }
    }
}

} // verus!
