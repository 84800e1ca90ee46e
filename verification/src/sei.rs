//! Supplemental Enhancement Information payloads that cross-reference
//! previously decoded parameter sets: the buffering-period payload, whose
//! field widths and list lengths come from the HRD block of the SPS it cites.

use vstd::prelude::*;

verus! {

use crate::rbsp::RbspBitReader;
use crate::rbsp::BitReaderError;
use crate::rbsp::parse_bits;
use crate::rbsp::parse_ue;
use crate::pps::ParamSetId;
use crate::pps::ParamSetIdError;
use crate::context::Context;
use crate::sps::SeqParameterSetView;
use crate::sps::opt_view;
use crate::sps::sps_hrd_lengths_ok;

/// The SEI payload type carried in an SEI message header.  Only the payload
/// this crate decodes is named; every other code is preserved in `Other`.
#[derive(Debug, Clone, Copy, PartialEq, Eq, Structural)]
pub enum HeaderType {
    BufferingPeriod,
    Other(u32),
}

/// An error from decoding a buffering-period payload.
#[derive(Debug, Clone, Copy, PartialEq)]
pub enum BufferingPeriodError {
    /// The buffer was exhausted mid-field, or an Exp-Golomb codeword was
    /// malformed.
    ReaderError(BitReaderError),
    /// The payload cites an SPS id that is not present in the registry: a
    /// stream-ordering defect, distinct from any bit-level decode error.
    UndefinedSeqParamSetId(ParamSetId),
    /// The payload's SPS id lies outside the legal range `[0, 31]`.
    InvalidSeqParamSetId(ParamSetIdError),
}

/// One initial CPB removal entry of a buffering period.
#[derive(Debug, Clone, Copy, PartialEq, Eq)]
pub struct InitialCpbRemoval {
    pub initial_cpb_removal_delay: u32,
    pub initial_cpb_removal_delay_offset: u32,
}

/// Result of a run of `n` CPB removal entries starting at `p`, each a pair of
/// `bits`-wide fields.
pub open spec fn parse_removal_list(d: Seq<u8>, p: nat, n: nat, bits: nat) -> Result<
    (Seq<InitialCpbRemoval>, nat),
    BitReaderError,
>
    decreases n,
{
    if n == 0 {
        Ok((Seq::empty(), p))
    } else {
        match parse_bits(d, p, bits) {
            Ok((delay, p1)) => match parse_bits(d, p1, bits) {
                Ok((offset, p2)) => match parse_removal_list(d, p2, (n - 1) as nat, bits) {
                    Ok((rest, p3)) => Ok(
                        (
                            seq![
                                InitialCpbRemoval {
                                    initial_cpb_removal_delay: delay as u32,
                                    initial_cpb_removal_delay_offset: offset as u32,
                                },
                            ] + rest,
                            p3,
                        ),
                    ),
                    Err(e) => Err(e),
                },
                Err(e) => Err(e),
            },
            Err(e) => Err(e),
        }
    }
}

/// Reads `count` CPB removal entries, each field `length` bits wide.
pub fn read_cpb_removal_delay_list(r: &mut RbspBitReader, count: usize, length: u8) -> (res: Result<
    Vec<InitialCpbRemoval>,
    BitReaderError,
>)
    requires
        old(r).wf(),
        length <= 32,
    ensures
        final(r).data@ == old(r).data@,
        final(r).wf(),
        match res {
            Ok(v) => parse_removal_list(old(r).data@, old(r).pos as nat, count as nat, length as nat)
                == Ok::<(Seq<InitialCpbRemoval>, nat), BitReaderError>(
                (v@, final(r).pos as nat),
            ),
            Err(e) => parse_removal_list(
                old(r).data@,
                old(r).pos as nat,
                count as nat,
                length as nat,
            ) == Err::<(Seq<InitialCpbRemoval>, nat), BitReaderError>(e),
        },
{
    let ghost d = old(r).data@;
    let ghost pl = old(r).pos as nat;
    let mut res: Vec<InitialCpbRemoval> = Vec::new();
    let mut i: usize = 0;
    while i < count
        invariant
            d == old(r).data@,
            pl == old(r).pos as nat,
            r.data@ == d,
            r.wf(),
            i <= count,
            length <= 32,
            parse_removal_list(d, pl, count as nat, length as nat) == (match parse_removal_list(
                d,
                r.pos as nat,
                (count - i) as nat,
                length as nat,
            ) {
                Ok(pr) => Ok::<(Seq<InitialCpbRemoval>, nat), BitReaderError>(
                    (res@ + pr.0, pr.1),
                ),
                Err(e) => Err::<(Seq<InitialCpbRemoval>, nat), BitReaderError>(e),
            }),
        decreases count - i,
    {
        let initial_cpb_removal_delay = match r.read_u32(length) {
            Ok(v) => v,
            Err(e) => {
                return Err(e);
            },
        };
        let initial_cpb_removal_delay_offset = match r.read_u32(length) {
            Ok(v) => v,
            Err(e) => {
                return Err(e);
            },
        };
        let item = InitialCpbRemoval { initial_cpb_removal_delay, initial_cpb_removal_delay_offset };
        proof {
            let m = (count - i) as nat;
            let pr = parse_removal_list(d, r.pos as nat, (m - 1) as nat, length as nat);
            if pr is Ok {
                let (rest, _pe) = pr->Ok_0;
                assert(res@ + (seq![item] + rest) =~= (res@ + seq![item]) + rest);
                assert(res@.push(item) =~= res@ + seq![item]);
            }
        }
        res.push(item);
        i = i + 1;
    }
    proof {
        assert(parse_removal_list(d, r.pos as nat, 0, length as nat) == Ok::<
            (Seq<InitialCpbRemoval>, nat),
            BitReaderError,
        >((Seq::empty(), r.pos as nat)));
        assert(res@ + Seq::<InitialCpbRemoval>::empty() =~= res@);
    }
    Ok(res)
}

/// A decoded buffering-period payload: one removal list per HRD block of the
/// cited SPS's VUI.
#[derive(Debug, Clone, PartialEq)]
pub struct BufferingPeriod {
    pub nal_hrd_bp: Option<Vec<InitialCpbRemoval>>,
    pub vcl_hrd_bp: Option<Vec<InitialCpbRemoval>>,
}

/// The mathematical image of `BufferingPeriod`, with the lists as sequences.
pub struct BufferingPeriodView {
    pub nal_hrd_bp: Option<Seq<InitialCpbRemoval>>,
    pub vcl_hrd_bp: Option<Seq<InitialCpbRemoval>>,
}

impl View for BufferingPeriod {
    type V = BufferingPeriodView;

    open spec fn view(&self) -> BufferingPeriodView {
        BufferingPeriodView {
            nal_hrd_bp: opt_view(self.nal_hrd_bp),
            vcl_hrd_bp: opt_view(self.vcl_hrd_bp),
        }
    }
}

/// The removal list an HRD block asks for: one entry per CPB specification,
/// with fields `cpb_removal_delay_length_minus1 + 1` bits wide; an SPS whose
/// VUI carries no such block asks for nothing.
pub open spec fn parse_hrd_bp(
    d: Seq<u8>,
    p: nat,
    hrd: Option<crate::sps::HrdParametersView>,
) -> Result<(Option<Seq<InitialCpbRemoval>>, nat), BitReaderError> {
    match hrd {
        Some(h) => match parse_removal_list(
            d,
            p,
            h.cpb_specs.len(),
            (h.cpb_removal_delay_length_minus1 + 1) as nat,
        ) {
            Ok((l, p1)) => Ok((Some(l), p1)),
            Err(e) => Err(e),
        },
        None => Ok((None, p)),
    }
}

/// Result of a buffering-period payload against the registry's current view:
/// the cited SPS id must be legal and present, and each removal list's shape
/// comes from the cited SPS's HRD blocks.
pub open spec fn parse_buffering_period(
    ctxv: Seq<Option<SeqParameterSetView>>,
    d: Seq<u8>,
) -> Result<BufferingPeriodView, BufferingPeriodError> {
    match parse_ue(d, 0) {
        Ok((id, p1)) => {
            if id > 31 {
                Err(
                    BufferingPeriodError::InvalidSeqParamSetId(
                        ParamSetIdError::IdTooLarge(id as u32),
                    ),
                )
            } else {
                match ctxv[id as int] {
                    None => Err(
                        BufferingPeriodError::UndefinedSeqParamSetId(ParamSetId(id as u8)),
                    ),
                    Some(sps) => {
                        let nal_hrd = match sps.vui_parameters {
                            Some(vui) => vui.nal_hrd_parameters,
                            None => None,
                        };
                        let vcl_hrd = match sps.vui_parameters {
                            Some(vui) => vui.vcl_hrd_parameters,
                            None => None,
                        };
                        match parse_hrd_bp(d, p1, nal_hrd) {
                            Ok((nal_bp, p2)) => match parse_hrd_bp(d, p2, vcl_hrd) {
                                Ok((vcl_bp, _)) => Ok(
                                    BufferingPeriodView { nal_hrd_bp: nal_bp, vcl_hrd_bp: vcl_bp },
                                ),
                                Err(e) => Err(BufferingPeriodError::ReaderError(e)),
                            },
                            Err(e) => Err(BufferingPeriodError::ReaderError(e)),
                        }
                    },
                }
            }
        },
        Err(e) => Err(BufferingPeriodError::ReaderError(e)),
    }
}

/// The HRD length fields of every registered SPS lie in the five-bit range.
pub open spec fn ctx_hrd_lengths_ok(ctxv: Seq<Option<SeqParameterSetView>>) -> bool {
    forall|i: int|
        0 <= i < ctxv.len() ==> (match #[trigger] ctxv[i] {
            Some(sps) => sps_hrd_lengths_ok(sps),
            None => true,
        })
}

impl BufferingPeriod {
    /// Decodes a buffering-period payload, resolving its SPS reference through
    /// the registry.
    pub fn read(ctx: &Context, buf: &[u8]) -> (res: Result<BufferingPeriod, BufferingPeriodError>)
        requires
            ctx.wf(),
            ctx_hrd_lengths_ok(ctx@),
            buf@.len() * 8 <= usize::MAX as nat,
        ensures
            match res {
                Ok(v) => parse_buffering_period(ctx@, buf@) == Ok::<
                    BufferingPeriodView,
                    BufferingPeriodError,
                >(v@),
                Err(e) => parse_buffering_period(ctx@, buf@) == Err::<
                    BufferingPeriodView,
                    BufferingPeriodError,
                >(e),
            },
    {
        let mut r = RbspBitReader::new(buf);
        let id_raw = match r.read_ue() {
            Ok(v) => v,
            Err(e) => {
                return Err(BufferingPeriodError::ReaderError(e));
            },
        };
        let seq_parameter_set_id = match ParamSetId::from_u32(id_raw) {
            Ok(v) => v,
            Err(e) => {
                return Err(BufferingPeriodError::InvalidSeqParamSetId(e));
            },
        };
        proof {
            ctx.lemma_view_len();
        }
        let sps = match ctx.sps_by_id(seq_parameter_set_id) {
            Some(s) => s,
            None => {
                return Err(BufferingPeriodError::UndefinedSeqParamSetId(seq_parameter_set_id));
            },
        };
        let nal_hrd_bp = match &sps.vui_parameters {
            Some(vui) => match &vui.nal_hrd_parameters {
                Some(h) => {
                    let l = match read_cpb_removal_delay_list(
                        &mut r,
                        h.cpb_specs.len(),
                        h.cpb_removal_delay_length_minus1 + 1,
                    ) {
                        Ok(v) => v,
                        Err(e) => {
                            return Err(BufferingPeriodError::ReaderError(e));
                        },
                    };
                    Some(l)
                },
                None => None,
            },
            None => None,
        };
        let vcl_hrd_bp = match &sps.vui_parameters {
            Some(vui) => match &vui.vcl_hrd_parameters {
                Some(h) => {
                    let l = match read_cpb_removal_delay_list(
                        &mut r,
                        h.cpb_specs.len(),
                        h.cpb_removal_delay_length_minus1 + 1,
                    ) {
                        Ok(v) => v,
                        Err(e) => {
                            return Err(BufferingPeriodError::ReaderError(e));
                        },
                    };
                    Some(l)
                },
                None => None,
            },
            None => None,
        };
        Ok(BufferingPeriod { nal_hrd_bp, vcl_hrd_bp })
    }
}

/// The streaming consumer for complete buffering-period SEI payloads: resolves
/// the payload against the registry and hands the structured result (or the
/// structured error) back to the caller.
pub struct BufferingPeriodPayloadReader {}

impl Default for BufferingPeriodPayloadReader {
    fn default() -> (r: Self)
        ensures
            r == (BufferingPeriodPayloadReader {  }),
    {
        BufferingPeriodPayloadReader {  }
    }
}

impl BufferingPeriodPayloadReader {
    /// Decodes one complete buffering-period payload; the payload type must be
    /// the one this reader handles.
    pub fn header(&mut self, ctx: &Context, payload_type: HeaderType, buf: &[u8]) -> (res: Result<
        BufferingPeriod,
        BufferingPeriodError,
    >)
        requires
            payload_type == HeaderType::BufferingPeriod,
            ctx.wf(),
            ctx_hrd_lengths_ok(ctx@),
            buf@.len() * 8 <= usize::MAX as nat,
        ensures
            *final(self) == *old(self),
            match res {
                Ok(v) => parse_buffering_period(ctx@, buf@) == Ok::<
                    BufferingPeriodView,
                    BufferingPeriodError,
                >(v@),
                Err(e) => parse_buffering_period(ctx@, buf@) == Err::<
                    BufferingPeriodView,
                    BufferingPeriodError,
                >(e),
            },
    {
        BufferingPeriod::read(ctx, buf)
    }
}

} // verus!
