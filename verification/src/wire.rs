//! The response's wire form.
//!
//! A response is written as one compact JSON object in a fixed field
//! order — `success`, then `data` and `error` when present, then
//! `timestamp` and `execution_time_ms` — and parsed back from exactly
//! that canonical form.  The serializer is specified by `spec_ser_response`,
//! the parser mirrors `spec_parse_response`, and `lemma_response_round_trip`
//! proves that parsing a serialized response gives it back field for
//! field.

use vstd::prelude::*;
use crate::jsontext::{
    dec_digits, emit_u64, emit_string, esc_bytes, is_digit, lemma_parse_string_inverts,
    lemma_parse_u64_inverts, parse_string, parse_u64, spec_expect, spec_parse_string,
    spec_parse_u64,
};
use crate::response::{IPCResponse, RespModel, ResponseData};
use crate::stats::StatusData;

verus! {

/// Matches the fixed bytes `p` at position `i`.
fn expect_bytes(s: &Vec<u8>, i: usize, p: &Vec<u8>) -> (r: Option<usize>)
    requires
        i <= s.len(),
    ensures
        match r {
            Some(j) => spec_expect(s@, i as int, p@) == Some(j as int) && i <= j <= s.len(),
            None => spec_expect(s@, i as int, p@) is None,
        },
{
    if s.len() - i < p.len() {
        return None;
    }
    let mut k: usize = 0;
    while k < p.len()
        invariant
            0 <= k <= p.len(),
            i + p.len() <= s.len(),
            forall|t: int| 0 <= t < k ==> s@[i + t] == p@[t],
        decreases p.len() - k,
    {
        if s[i + k] != p[k] {
            proof {
                assert(s@.subrange(i as int, i + p@.len()) != p@) by {
                    assert(s@.subrange(i as int, i + p@.len())[k as int] == s@[i + k]);
                }
            }
            return None;
        }
        k = k + 1;
    }
    proof {
        assert(s@.subrange(i as int, i + p@.len()) =~= p@);
    }
    Some(i + p.len())
}

/// The wire text `{\"success\":` as bytes.
pub open spec fn lit_obj_success() -> Seq<u8> {
    seq![123u8, 34u8, 115u8, 117u8, 99u8, 99u8, 101u8, 115u8, 115u8, 34u8, 58u8]
}

/// Builds the wire text `{\"success\":`.
fn lit_obj_success_vec() -> (v: Vec<u8>)
    ensures
        v@ == lit_obj_success(),
{
    let mut v: Vec<u8> = Vec::new();
    v.push(123);
    v.push(34);
    v.push(115);
    v.push(117);
    v.push(99);
    v.push(99);
    v.push(101);
    v.push(115);
    v.push(115);
    v.push(34);
    v.push(58);
    proof {
        assert(v@ =~= lit_obj_success());
    }
    v
}

/// The wire text `true` as bytes.
pub open spec fn lit_true() -> Seq<u8> {
    seq![116u8, 114u8, 117u8, 101u8]
}

/// Builds the wire text `true`.
fn lit_true_vec() -> (v: Vec<u8>)
    ensures
        v@ == lit_true(),
{
    let mut v: Vec<u8> = Vec::new();
    v.push(116);
    v.push(114);
    v.push(117);
    v.push(101);
    proof {
        assert(v@ =~= lit_true());
    }
    v
}

/// The wire text `false` as bytes.
pub open spec fn lit_false() -> Seq<u8> {
    seq![102u8, 97u8, 108u8, 115u8, 101u8]
}

/// Builds the wire text `false`.
fn lit_false_vec() -> (v: Vec<u8>)
    ensures
        v@ == lit_false(),
{
    let mut v: Vec<u8> = Vec::new();
    v.push(102);
    v.push(97);
    v.push(108);
    v.push(115);
    v.push(101);
    proof {
        assert(v@ =~= lit_false());
    }
    v
}

/// The wire text `,\"data\":{\"shutdown\":true}` as bytes.
pub open spec fn lit_data_shutdown() -> Seq<u8> {
    seq![44u8, 34u8, 100u8, 97u8, 116u8, 97u8, 34u8, 58u8, 123u8, 34u8, 115u8, 104u8, 117u8, 116u8, 100u8, 111u8, 119u8, 110u8, 34u8, 58u8, 116u8, 114u8, 117u8, 101u8, 125u8]
}

/// Builds the wire text `,\"data\":{\"shutdown\":true}`.
fn lit_data_shutdown_vec() -> (v: Vec<u8>)
    ensures
        v@ == lit_data_shutdown(),
{
    let mut v: Vec<u8> = Vec::new();
    v.push(44);
    v.push(34);
    v.push(100);
    v.push(97);
    v.push(116);
    v.push(97);
    v.push(34);
    v.push(58);
    v.push(123);
    v.push(34);
    v.push(115);
    v.push(104);
    v.push(117);
    v.push(116);
    v.push(100);
    v.push(111);
    v.push(119);
    v.push(110);
    v.push(34);
    v.push(58);
    v.push(116);
    v.push(114);
    v.push(117);
    v.push(101);
    v.push(125);
    proof {
        assert(v@ =~= lit_data_shutdown());
    }
    v
}

/// The wire text `,\"data\":{\"total\":` as bytes.
pub open spec fn lit_data_total() -> Seq<u8> {
    seq![44u8, 34u8, 100u8, 97u8, 116u8, 97u8, 34u8, 58u8, 123u8, 34u8, 116u8, 111u8, 116u8, 97u8, 108u8, 34u8, 58u8]
}

/// Builds the wire text `,\"data\":{\"total\":`.
fn lit_data_total_vec() -> (v: Vec<u8>)
    ensures
        v@ == lit_data_total(),
{
    let mut v: Vec<u8> = Vec::new();
    v.push(44);
    v.push(34);
    v.push(100);
    v.push(97);
    v.push(116);
    v.push(97);
    v.push(34);
    v.push(58);
    v.push(123);
    v.push(34);
    v.push(116);
    v.push(111);
    v.push(116);
    v.push(97);
    v.push(108);
    v.push(34);
    v.push(58);
    proof {
        assert(v@ =~= lit_data_total());
    }
    v
}

/// The wire text `,\"successful\":` as bytes.
pub open spec fn lit_successful() -> Seq<u8> {
    seq![44u8, 34u8, 115u8, 117u8, 99u8, 99u8, 101u8, 115u8, 115u8, 102u8, 117u8, 108u8, 34u8, 58u8]
}

/// Builds the wire text `,\"successful\":`.
fn lit_successful_vec() -> (v: Vec<u8>)
    ensures
        v@ == lit_successful(),
{
    let mut v: Vec<u8> = Vec::new();
    v.push(44);
    v.push(34);
    v.push(115);
    v.push(117);
    v.push(99);
    v.push(99);
    v.push(101);
    v.push(115);
    v.push(115);
    v.push(102);
    v.push(117);
    v.push(108);
    v.push(34);
    v.push(58);
    proof {
        assert(v@ =~= lit_successful());
    }
    v
}

/// The wire text `,\"failed\":` as bytes.
pub open spec fn lit_failed() -> Seq<u8> {
    seq![44u8, 34u8, 102u8, 97u8, 105u8, 108u8, 101u8, 100u8, 34u8, 58u8]
}

/// Builds the wire text `,\"failed\":`.
fn lit_failed_vec() -> (v: Vec<u8>)
    ensures
        v@ == lit_failed(),
{
    let mut v: Vec<u8> = Vec::new();
    v.push(44);
    v.push(34);
    v.push(102);
    v.push(97);
    v.push(105);
    v.push(108);
    v.push(101);
    v.push(100);
    v.push(34);
    v.push(58);
    proof {
        assert(v@ =~= lit_failed());
    }
    v
}

/// The wire text `,\"average_execution_time_ms\":` as bytes.
pub open spec fn lit_avg_ms() -> Seq<u8> {
    seq![44u8, 34u8, 97u8, 118u8, 101u8, 114u8, 97u8, 103u8, 101u8, 95u8, 101u8, 120u8, 101u8, 99u8, 117u8, 116u8, 105u8, 111u8, 110u8, 95u8, 116u8, 105u8, 109u8, 101u8, 95u8, 109u8, 115u8, 34u8, 58u8]
}

/// Builds the wire text `,\"average_execution_time_ms\":`.
fn lit_avg_ms_vec() -> (v: Vec<u8>)
    ensures
        v@ == lit_avg_ms(),
{
    let mut v: Vec<u8> = Vec::new();
    v.push(44);
    v.push(34);
    v.push(97);
    v.push(118);
    v.push(101);
    v.push(114);
    v.push(97);
    v.push(103);
    v.push(101);
    v.push(95);
    v.push(101);
    v.push(120);
    v.push(101);
    v.push(99);
    v.push(117);
    v.push(116);
    v.push(105);
    v.push(111);
    v.push(110);
    v.push(95);
    v.push(116);
    v.push(105);
    v.push(109);
    v.push(101);
    v.push(95);
    v.push(109);
    v.push(115);
    v.push(34);
    v.push(58);
    proof {
        assert(v@ =~= lit_avg_ms());
    }
    v
}

/// The wire text `,\"uptime_seconds\":` as bytes.
pub open spec fn lit_uptime() -> Seq<u8> {
    seq![44u8, 34u8, 117u8, 112u8, 116u8, 105u8, 109u8, 101u8, 95u8, 115u8, 101u8, 99u8, 111u8, 110u8, 100u8, 115u8, 34u8, 58u8]
}

/// Builds the wire text `,\"uptime_seconds\":`.
fn lit_uptime_vec() -> (v: Vec<u8>)
    ensures
        v@ == lit_uptime(),
{
    let mut v: Vec<u8> = Vec::new();
    v.push(44);
    v.push(34);
    v.push(117);
    v.push(112);
    v.push(116);
    v.push(105);
    v.push(109);
    v.push(101);
    v.push(95);
    v.push(115);
    v.push(101);
    v.push(99);
    v.push(111);
    v.push(110);
    v.push(100);
    v.push(115);
    v.push(34);
    v.push(58);
    proof {
        assert(v@ =~= lit_uptime());
    }
    v
}

/// The wire text `,\"error\":` as bytes.
pub open spec fn lit_error() -> Seq<u8> {
    seq![44u8, 34u8, 101u8, 114u8, 114u8, 111u8, 114u8, 34u8, 58u8]
}

/// Builds the wire text `,\"error\":`.
fn lit_error_vec() -> (v: Vec<u8>)
    ensures
        v@ == lit_error(),
{
    let mut v: Vec<u8> = Vec::new();
    v.push(44);
    v.push(34);
    v.push(101);
    v.push(114);
    v.push(114);
    v.push(111);
    v.push(114);
    v.push(34);
    v.push(58);
    proof {
        assert(v@ =~= lit_error());
    }
    v
}

/// The wire text `,\"timestamp\":` as bytes.
pub open spec fn lit_timestamp() -> Seq<u8> {
    seq![44u8, 34u8, 116u8, 105u8, 109u8, 101u8, 115u8, 116u8, 97u8, 109u8, 112u8, 34u8, 58u8]
}

/// Builds the wire text `,\"timestamp\":`.
fn lit_timestamp_vec() -> (v: Vec<u8>)
    ensures
        v@ == lit_timestamp(),
{
    let mut v: Vec<u8> = Vec::new();
    v.push(44);
    v.push(34);
    v.push(116);
    v.push(105);
    v.push(109);
    v.push(101);
    v.push(115);
    v.push(116);
    v.push(97);
    v.push(109);
    v.push(112);
    v.push(34);
    v.push(58);
    proof {
        assert(v@ =~= lit_timestamp());
    }
    v
}

/// The wire text `,\"execution_time_ms\":` as bytes.
pub open spec fn lit_exec_ms() -> Seq<u8> {
    seq![44u8, 34u8, 101u8, 120u8, 101u8, 99u8, 117u8, 116u8, 105u8, 111u8, 110u8, 95u8, 116u8, 105u8, 109u8, 101u8, 95u8, 109u8, 115u8, 34u8, 58u8]
}

/// Builds the wire text `,\"execution_time_ms\":`.
fn lit_exec_ms_vec() -> (v: Vec<u8>)
    ensures
        v@ == lit_exec_ms(),
{
    let mut v: Vec<u8> = Vec::new();
    v.push(44);
    v.push(34);
    v.push(101);
    v.push(120);
    v.push(101);
    v.push(99);
    v.push(117);
    v.push(116);
    v.push(105);
    v.push(111);
    v.push(110);
    v.push(95);
    v.push(116);
    v.push(105);
    v.push(109);
    v.push(101);
    v.push(95);
    v.push(109);
    v.push(115);
    v.push(34);
    v.push(58);
    proof {
        assert(v@ =~= lit_exec_ms());
    }
    v
}

/// The wire text `}` as bytes.
pub open spec fn lit_close() -> Seq<u8> {
    seq![125u8]
}

/// Builds the wire text `}`.
fn lit_close_vec() -> (v: Vec<u8>)
    ensures
        v@ == lit_close(),
{
    let mut v: Vec<u8> = Vec::new();
    v.push(125);
    proof {
        assert(v@ =~= lit_close());
    }
    v
}

/// The wire form of a boolean.
pub open spec fn ser_bool(b: bool) -> Seq<u8> {
    if b {
        lit_true()
    } else {
        lit_false()
    }
}

/// The wire form of a status payload, after its opening `total` key.
pub open spec fn ser_status_tail(st: StatusData) -> Seq<u8> {
    dec_digits(st.total as nat) + lit_successful() + dec_digits(st.successful as nat)
        + lit_failed() + dec_digits(st.failed as nat) + lit_avg_ms() + dec_digits(
        st.average_execution_time_ms as nat,
    ) + lit_uptime() + dec_digits(st.uptime_seconds as nat) + lit_close()
}

/// The wire form of the optional `data` member.
pub open spec fn ser_data(d: Option<ResponseData>) -> Seq<u8> {
    match d {
        None => Seq::empty(),
        Some(ResponseData::Shutdown) => lit_data_shutdown(),
        Some(ResponseData::Status(st)) => lit_data_total() + ser_status_tail(st),
    }
}

/// The wire form of the optional `error` member.
pub open spec fn ser_error(e: Option<Seq<u8>>) -> Seq<u8> {
    match e {
        None => Seq::empty(),
        Some(m) => lit_error() + seq![34u8] + esc_bytes(m) + seq![34u8],
    }
}

/// The wire form of the optional `execution_time_ms` member.
pub open spec fn ser_exec_ms(t: Option<u64>) -> Seq<u8> {
    match t {
        None => Seq::empty(),
        Some(v) => lit_exec_ms() + dec_digits(v as nat),
    }
}

/// The canonical wire form of a response.
pub open spec fn spec_ser_response(m: RespModel) -> Seq<u8> {
    lit_obj_success() + ser_bool(m.success) + ser_data(m.data) + ser_error(m.error)
        + lit_timestamp() + dec_digits(m.timestamp as nat) + ser_exec_ms(m.execution_time_ms)
        + lit_close()
}

/// Serializes a response into its canonical wire form.
#[verifier::rlimit(100)]
pub fn serialize_response(r: &IPCResponse) -> (out: Vec<u8>)
    ensures
        out@ == spec_ser_response(r@),
{
    let mut out: Vec<u8> = Vec::new();
    let mut lit = lit_obj_success_vec();
    out.append(&mut lit);
    if r.success {
        let mut lit = lit_true_vec();
        out.append(&mut lit);
    } else {
        let mut lit = lit_false_vec();
        out.append(&mut lit);
    }
    let ghost after_bool = out@;
    proof {
        assert(after_bool =~= lit_obj_success() + ser_bool(r.success));
    }
    match &r.data {
        None => {},
        Some(ResponseData::Shutdown) => {
            let mut lit = lit_data_shutdown_vec();
            out.append(&mut lit);
        },
        Some(ResponseData::Status(st)) => {
            let mut lit = lit_data_total_vec();
            out.append(&mut lit);
            emit_u64(&mut out, st.total);
            let mut lit = lit_successful_vec();
            out.append(&mut lit);
            emit_u64(&mut out, st.successful);
            let mut lit = lit_failed_vec();
            out.append(&mut lit);
            emit_u64(&mut out, st.failed);
            let mut lit = lit_avg_ms_vec();
            out.append(&mut lit);
            emit_u64(&mut out, st.average_execution_time_ms);
            let mut lit = lit_uptime_vec();
            out.append(&mut lit);
            emit_u64(&mut out, st.uptime_seconds);
            let mut lit = lit_close_vec();
            out.append(&mut lit);
        },
    }
    let ghost after_data = out@;
    proof {
        assert(after_data =~= after_bool + ser_data(r.data));
    }
    match &r.error {
        None => {},
        Some(m) => {
            let mut lit = lit_error_vec();
            out.append(&mut lit);
            emit_string(&mut out, m);
        },
    }
    let ghost after_error = out@;
    proof {
        assert(after_error =~= after_data + ser_error(r@.error));
    }
    let mut lit = lit_timestamp_vec();
    out.append(&mut lit);
    emit_u64(&mut out, r.timestamp);
    match &r.execution_time_ms {
        None => {},
        Some(v) => {
            let mut lit = lit_exec_ms_vec();
            out.append(&mut lit);
            emit_u64(&mut out, *v);
        },
    }
    let mut lit = lit_close_vec();
    out.append(&mut lit);
    proof {
        assert(out@ =~= spec_ser_response(r@));
    }
    out
}

/// A boolean at position `i`.
pub open spec fn spec_parse_bool(s: Seq<u8>, i: int) -> Option<(bool, int)> {
    match spec_expect(s, i, lit_true()) {
        Some(j) => Some((true, j)),
        None => match spec_expect(s, i, lit_false()) {
            Some(j) => Some((false, j)),
            None => None,
        },
    }
}

/// The five status counters after the opening `total` key, through the
/// payload's closing brace.
pub open spec fn spec_parse_status_fields(s: Seq<u8>, i: int) -> Option<(StatusData, int)> {
    match spec_parse_u64(s, i) {
        None => None,
        Some((total, i1)) => match spec_expect(s, i1, lit_successful()) {
            None => None,
            Some(i2) => match spec_parse_u64(s, i2) {
                None => None,
                Some((successful, i3)) => match spec_expect(s, i3, lit_failed()) {
                    None => None,
                    Some(i4) => match spec_parse_u64(s, i4) {
                        None => None,
                        Some((failed, i5)) => match spec_expect(s, i5, lit_avg_ms()) {
                            None => None,
                            Some(i6) => match spec_parse_u64(s, i6) {
                                None => None,
                                Some((avg, i7)) => match spec_expect(s, i7, lit_uptime()) {
                                    None => None,
                                    Some(i8) => match spec_parse_u64(s, i8) {
                                        None => None,
                                        Some((uptime, i9)) => match spec_expect(
                                            s,
                                            i9,
                                            lit_close(),
                                        ) {
                                            None => None,
                                            Some(i10) => Some(
                                                (
                                                    StatusData {
                                                        total,
                                                        successful,
                                                        failed,
                                                        average_execution_time_ms: avg,
                                                        uptime_seconds: uptime,
                                                    },
                                                    i10,
                                                ),
                                            ),
                                        },
                                    },
                                },
                            },
                        },
                    },
                },
            },
        },
    }
}

/// The optional `data` member at position `i`.
pub open spec fn spec_parse_data(s: Seq<u8>, i: int) -> Option<(Option<ResponseData>, int)> {
    match spec_expect(s, i, lit_data_shutdown()) {
        Some(j) => Some((Some(ResponseData::Shutdown), j)),
        None => match spec_expect(s, i, lit_data_total()) {
            Some(j) => match spec_parse_status_fields(s, j) {
                Some((st, e)) => Some((Some(ResponseData::Status(st)), e)),
                None => None,
            },
            None => Some((Option::<ResponseData>::None, i)),
        },
    }
}

/// The optional `error` member at position `i`.
pub open spec fn spec_parse_error_field(s: Seq<u8>, i: int) -> Option<(Option<Seq<u8>>, int)> {
    match spec_expect(s, i, lit_error()) {
        Some(j) => match spec_parse_string(s, j) {
            Some((v, e)) => Some((Some(v), e)),
            None => None,
        },
        None => Some((Option::<Seq<u8>>::None, i)),
    }
}

/// The optional `execution_time_ms` member at position `i`.
pub open spec fn spec_parse_exec_ms(s: Seq<u8>, i: int) -> Option<(Option<u64>, int)> {
    match spec_expect(s, i, lit_exec_ms()) {
        Some(j) => match spec_parse_u64(s, j) {
            Some((v, e)) => Some((Some(v), e)),
            None => None,
        },
        None => Some((Option::<u64>::None, i)),
    }
}

/// A whole response: the fixed member order, closed by the final brace at
/// the very end of the input.
pub open spec fn spec_parse_response(s: Seq<u8>) -> Option<RespModel> {
    match spec_expect(s, 0, lit_obj_success()) {
        None => None,
        Some(i1) => match spec_parse_bool(s, i1) {
            None => None,
            Some((success, i2)) => match spec_parse_data(s, i2) {
                None => None,
                Some((data, i3)) => match spec_parse_error_field(s, i3) {
                    None => None,
                    Some((error, i4)) => match spec_expect(s, i4, lit_timestamp()) {
                        None => None,
                        Some(i5) => match spec_parse_u64(s, i5) {
                            None => None,
                            Some((timestamp, i6)) => match spec_parse_exec_ms(s, i6) {
                                None => None,
                                Some((execution_time_ms, i7)) => match spec_expect(
                                    s,
                                    i7,
                                    lit_close(),
                                ) {
                                    None => None,
                                    Some(i8) => if i8 == s.len() {
                                        Some(
                                            RespModel {
                                                success,
                                                data,
                                                error,
                                                timestamp,
                                                execution_time_ms,
                                            },
                                        )
                                    } else {
                                        None
                                    },
                                },
                            },
                        },
                    },
                },
            },
        },
    }
}

/// Reads the five status counters after the opening `total` key.
fn parse_status_fields(s: &Vec<u8>, i: usize) -> (r: Option<(StatusData, usize)>)
    requires
        i <= s.len(),
    ensures
        match r {
            Some((st, j)) => spec_parse_status_fields(s@, i as int) == Some((st, j as int)) && i
                <= j <= s.len(),
            None => spec_parse_status_fields(s@, i as int) is None,
        },
{
    let (total, i1) = match parse_u64(s, i) {
        Some(p) => p,
        None => {
            return None;
        },
    };
    let i2 = match expect_bytes(s, i1, &lit_successful_vec()) {
        Some(j) => j,
        None => {
            return None;
        },
    };
    let (successful, i3) = match parse_u64(s, i2) {
        Some(p) => p,
        None => {
            return None;
        },
    };
    let i4 = match expect_bytes(s, i3, &lit_failed_vec()) {
        Some(j) => j,
        None => {
            return None;
        },
    };
    let (failed, i5) = match parse_u64(s, i4) {
        Some(p) => p,
        None => {
            return None;
        },
    };
    let i6 = match expect_bytes(s, i5, &lit_avg_ms_vec()) {
        Some(j) => j,
        None => {
            return None;
        },
    };
    let (avg, i7) = match parse_u64(s, i6) {
        Some(p) => p,
        None => {
            return None;
        },
    };
    let i8 = match expect_bytes(s, i7, &lit_uptime_vec()) {
        Some(j) => j,
        None => {
            return None;
        },
    };
    let (uptime, i9) = match parse_u64(s, i8) {
        Some(p) => p,
        None => {
            return None;
        },
    };
    let i10 = match expect_bytes(s, i9, &lit_close_vec()) {
        Some(j) => j,
        None => {
            return None;
        },
    };
    Some(
        (
            StatusData {
                total,
                successful,
                failed,
                average_execution_time_ms: avg,
                uptime_seconds: uptime,
            },
            i10,
        ),
    )
}

/// Parses a response from its canonical wire form; anything else is
/// rejected.
pub fn parse_response(s: &Vec<u8>) -> (r: Option<IPCResponse>)
    ensures
        match r {
            Some(resp) => spec_parse_response(s@) == Some(resp@),
            None => spec_parse_response(s@) is None,
        },
{
    let i1 = match expect_bytes(s, 0, &lit_obj_success_vec()) {
        Some(j) => j,
        None => {
            return None;
        },
    };
    let (success, i2) = match expect_bytes(s, i1, &lit_true_vec()) {
        Some(j) => (true, j),
        None => match expect_bytes(s, i1, &lit_false_vec()) {
            Some(j) => (false, j),
            None => {
                return None;
            },
        },
    };
    let (data, i3) = match expect_bytes(s, i2, &lit_data_shutdown_vec()) {
        Some(j) => (Some(ResponseData::Shutdown), j),
        None => match expect_bytes(s, i2, &lit_data_total_vec()) {
            Some(j) => match parse_status_fields(s, j) {
                Some((st, e)) => (Some(ResponseData::Status(st)), e),
                None => {
                    return None;
                },
            },
            None => (None, i2),
        },
    };
    let (error, i4) = match expect_bytes(s, i3, &lit_error_vec()) {
        Some(j) => match parse_string(s, j) {
            Some((v, e)) => (Some(v), e),
            None => {
                return None;
            },
        },
        None => (None, i3),
    };
    let i5 = match expect_bytes(s, i4, &lit_timestamp_vec()) {
        Some(j) => j,
        None => {
            return None;
        },
    };
    let (timestamp, i6) = match parse_u64(s, i5) {
        Some(p) => p,
        None => {
            return None;
        },
    };
    let (execution_time_ms, i7) = match expect_bytes(s, i6, &lit_exec_ms_vec()) {
        Some(j) => match parse_u64(s, j) {
            Some((v, e)) => (Some(v), e),
            None => {
                return None;
            },
        },
        None => (None, i6),
    };
    let i8 = match expect_bytes(s, i7, &lit_close_vec()) {
        Some(j) => j,
        None => {
            return None;
        },
    };
    if i8 != s.len() {
        return None;
    }
    Some(IPCResponse { success, data, error, timestamp, execution_time_ms })
}

/// One piece of a concatenation, recovered by subrange.
proof fn lemma_chunk(s: Seq<u8>, pre: Seq<u8>, mid: Seq<u8>, post: Seq<u8>)
    requires
        s == pre + mid + post,
    ensures
        s.subrange(pre.len() as int, pre.len() + mid.len() as int) == mid,
{
    assert(s.subrange(pre.len() as int, pre.len() + mid.len() as int) =~= mid);
}

/// A fixed text matches where the buffer holds it.
proof fn lemma_expect_some(s: Seq<u8>, i: int, p: Seq<u8>)
    requires
        0 <= i,
        i + p.len() <= s.len(),
        s.subrange(i, i + p.len()) == p,
    ensures
        spec_expect(s, i, p) == Some(i + p.len()),
{
}

/// A fixed text cannot match across a differing byte.
proof fn lemma_expect_diff(s: Seq<u8>, i: int, p: Seq<u8>, k: int)
    requires
        0 <= i,
        0 <= k < p.len(),
        i + k < s.len(),
        s[i + k] != p[k],
    ensures
        spec_expect(s, i, p) is None,
{
    if i + p.len() <= s.len() {
        assert(s.subrange(i, i + p.len())[k] == s[i + k]);
    }
}

/// The status counters parse back from their own wire tail.
#[verifier::rlimit(100)]
proof fn lemma_status_fields_invert(s: Seq<u8>, i: int, st: StatusData)
    requires
        0 <= i,
        i + ser_status_tail(st).len() <= s.len(),
        s.subrange(i, i + ser_status_tail(st).len()) == ser_status_tail(st),
    ensures
        spec_parse_status_fields(s, i) == Some((st, i + ser_status_tail(st).len())),
{
    let t = ser_status_tail(st);
    let d1 = dec_digits(st.total as nat);
    let d2 = dec_digits(st.successful as nat);
    let d3 = dec_digits(st.failed as nat);
    let d4 = dec_digits(st.average_execution_time_ms as nat);
    let d5 = dec_digits(st.uptime_seconds as nat);
    let tc = d1 + lit_successful() + d2 + lit_failed() + d3 + lit_avg_ms() + d4 + lit_uptime()
        + d5 + lit_close();
    assert(t == tc);
    let o1 = d1.len() as int;
    let o2 = o1 + lit_successful().len();
    let o3 = o2 + d2.len();
    let o4 = o3 + lit_failed().len();
    let o5 = o4 + d3.len();
    let o6 = o5 + lit_avg_ms().len();
    let o7 = o6 + d4.len();
    let o8 = o7 + lit_uptime().len();
    let o9 = o8 + d5.len();
    assert(s.subrange(i, i + o1) =~= d1) by {
        assert forall|k: int| 0 <= k < d1.len() implies s[i + k] == d1[k] by {
            assert(s.subrange(i, i + t.len())[k] == s[i + k]);
            assert(tc[k] == d1[k]);
        }
    }
    assert(s.subrange(i + o1, i + o2) =~= lit_successful()) by {
        assert forall|k: int| 0 <= k < lit_successful().len() implies s[i + o1 + k]
            == lit_successful()[k] by {
            assert(s.subrange(i, i + t.len())[o1 + k] == s[i + (o1 + k)]);
            assert(tc[o1 + k] == lit_successful()[k]);
        }
    }
    assert(s.subrange(i + o2, i + o3) =~= d2) by {
        assert forall|k: int| 0 <= k < d2.len() implies s[i + o2 + k] == d2[k] by {
            assert(s.subrange(i, i + t.len())[o2 + k] == s[i + (o2 + k)]);
            assert(tc[o2 + k] == d2[k]);
        }
    }
    assert(s.subrange(i + o3, i + o4) =~= lit_failed()) by {
        assert forall|k: int| 0 <= k < lit_failed().len() implies s[i + o3 + k]
            == lit_failed()[k] by {
            assert(s.subrange(i, i + t.len())[o3 + k] == s[i + (o3 + k)]);
            assert(tc[o3 + k] == lit_failed()[k]);
        }
    }
    assert(s.subrange(i + o4, i + o5) =~= d3) by {
        assert forall|k: int| 0 <= k < d3.len() implies s[i + o4 + k] == d3[k] by {
            assert(s.subrange(i, i + t.len())[o4 + k] == s[i + (o4 + k)]);
            assert(tc[o4 + k] == d3[k]);
        }
    }
    assert(s.subrange(i + o5, i + o6) =~= lit_avg_ms()) by {
        assert forall|k: int| 0 <= k < lit_avg_ms().len() implies s[i + o5 + k]
            == lit_avg_ms()[k] by {
            assert(s.subrange(i, i + t.len())[o5 + k] == s[i + (o5 + k)]);
            assert(tc[o5 + k] == lit_avg_ms()[k]);
        }
    }
    assert(s.subrange(i + o6, i + o7) =~= d4) by {
        assert forall|k: int| 0 <= k < d4.len() implies s[i + o6 + k] == d4[k] by {
            assert(s.subrange(i, i + t.len())[o6 + k] == s[i + (o6 + k)]);
            assert(tc[o6 + k] == d4[k]);
        }
    }
    assert(s.subrange(i + o7, i + o8) =~= lit_uptime()) by {
        assert forall|k: int| 0 <= k < lit_uptime().len() implies s[i + o7 + k]
            == lit_uptime()[k] by {
            assert(s.subrange(i, i + t.len())[o7 + k] == s[i + (o7 + k)]);
            assert(tc[o7 + k] == lit_uptime()[k]);
        }
    }
    assert(s.subrange(i + o8, i + o9) =~= d5) by {
        assert forall|k: int| 0 <= k < d5.len() implies s[i + o8 + k] == d5[k] by {
            assert(s.subrange(i, i + t.len())[o8 + k] == s[i + (o8 + k)]);
            assert(tc[o8 + k] == d5[k]);
        }
    }
    assert(s.subrange(i + o9, i + t.len()) =~= lit_close()) by {
        assert forall|k: int| 0 <= k < 1 implies s[i + o9 + k] == lit_close()[k] by {
            assert(s.subrange(i, i + t.len())[o9 + k] == s[i + (o9 + k)]);
            assert(tc[o9 + k] == lit_close()[k]);
        }
    }
    assert(s[i + o1] == 44 && !is_digit(44)) by {
        assert(s.subrange(i + o1, i + o2)[0] == s[i + o1 + 0]);
    }
    lemma_parse_u64_inverts(s, i, st.total);
    lemma_expect_some(s, i + o1, lit_successful());
    assert(s[i + o3] == 44) by {
        assert(s.subrange(i + o3, i + o4)[0] == s[i + o3 + 0]);
    }
    lemma_parse_u64_inverts(s, i + o2, st.successful);
    lemma_expect_some(s, i + o3, lit_failed());
    assert(s[i + o5] == 44) by {
        assert(s.subrange(i + o5, i + o6)[0] == s[i + o5 + 0]);
    }
    lemma_parse_u64_inverts(s, i + o4, st.failed);
    lemma_expect_some(s, i + o5, lit_avg_ms());
    assert(s[i + o7] == 44) by {
        assert(s.subrange(i + o7, i + o8)[0] == s[i + o7 + 0]);
    }
    lemma_parse_u64_inverts(s, i + o6, st.average_execution_time_ms);
    lemma_expect_some(s, i + o7, lit_uptime());
    assert(s[i + o9] == 125 && !is_digit(125)) by {
        assert(s.subrange(i + o9, i + t.len())[0] == s[i + o9 + 0]);
    }
    lemma_parse_u64_inverts(s, i + o8, st.uptime_seconds);
    lemma_expect_some(s, i + o9, lit_close());
    assert(st == (StatusData {
        total: st.total,
        successful: st.successful,
        failed: st.failed,
        average_execution_time_ms: st.average_execution_time_ms,
        uptime_seconds: st.uptime_seconds,
    }));
}

/// Where each piece of a serialized response lies in the whole.
#[verifier::rlimit(100)]
proof fn lemma_ser_chunks(m: RespModel)
    ensures
        ({
            let s = spec_ser_response(m);
            let a1 = lit_obj_success().len() as int;
            let a2 = a1 + ser_bool(m.success).len();
            let a3 = a2 + ser_data(m.data).len();
            let a4 = a3 + ser_error(m.error).len();
            let a5 = a4 + lit_timestamp().len();
            let a6 = a5 + dec_digits(m.timestamp as nat).len();
            let a7 = a6 + ser_exec_ms(m.execution_time_ms).len();
            let a8 = a7 + lit_close().len();
            &&& s.len() == a8
            &&& s.subrange(0, a1) == lit_obj_success()
            &&& s.subrange(a1, a2) == ser_bool(m.success)
            &&& s.subrange(a2, a3) == ser_data(m.data)
            &&& s.subrange(a3, a4) == ser_error(m.error)
            &&& s.subrange(a4, a5) == lit_timestamp()
            &&& s.subrange(a5, a6) == dec_digits(m.timestamp as nat)
            &&& s.subrange(a6, a7) == ser_exec_ms(m.execution_time_ms)
            &&& s.subrange(a7, a8) == lit_close()
        }),
{
    let s = spec_ser_response(m);
    let p_a = lit_obj_success();
    let p_b = ser_bool(m.success);
    let p_c = ser_data(m.data);
    let p_d = ser_error(m.error);
    let p_e = lit_timestamp();
    let p_f = dec_digits(m.timestamp as nat);
    let p_g = ser_exec_ms(m.execution_time_ms);
    let p_h = lit_close();
    let sc = p_a + p_b + p_c + p_d + p_e + p_f + p_g + p_h;
    assert(s == sc);
    let a1 = p_a.len() as int;
    let a2 = a1 + p_b.len();
    let a3 = a2 + p_c.len();
    let a4 = a3 + p_d.len();
    let a5 = a4 + p_e.len();
    let a6 = a5 + p_f.len();
    let a7 = a6 + p_g.len();
    let a8 = a7 + p_h.len();
    assert(s.len() == a8);
    assert(s.subrange(0, a1) =~= p_a) by {
        assert forall|k: int| 0 <= k < p_a.len() implies s[k] == p_a[k] by {
            assert(sc[0 + k] == p_a[k]);
        }
    }
    assert(s.subrange(a1, a2) =~= p_b) by {
        assert forall|k: int| 0 <= k < p_b.len() implies s[a1 + k] == p_b[k] by {
            assert(sc[a1 + k] == p_b[k]);
        }
    }
    assert(s.subrange(a2, a3) =~= p_c) by {
        assert forall|k: int| 0 <= k < p_c.len() implies s[a2 + k] == p_c[k] by {
            assert(sc[a2 + k] == p_c[k]);
        }
    }
    assert(s.subrange(a3, a4) =~= p_d) by {
        assert forall|k: int| 0 <= k < p_d.len() implies s[a3 + k] == p_d[k] by {
            assert(sc[a3 + k] == p_d[k]);
        }
    }
    assert(s.subrange(a4, a5) =~= p_e) by {
        assert forall|k: int| 0 <= k < p_e.len() implies s[a4 + k] == p_e[k] by {
            assert(sc[a4 + k] == p_e[k]);
        }
    }
    assert(s.subrange(a5, a6) =~= p_f) by {
        assert forall|k: int| 0 <= k < p_f.len() implies s[a5 + k] == p_f[k] by {
            assert(sc[a5 + k] == p_f[k]);
        }
    }
    assert(s.subrange(a6, a7) =~= p_g) by {
        assert forall|k: int| 0 <= k < p_g.len() implies s[a6 + k] == p_g[k] by {
            assert(sc[a6 + k] == p_g[k]);
        }
    }
    assert(s.subrange(a7, a8) =~= p_h) by {
        assert forall|k: int| 0 <= k < p_h.len() implies s[a7 + k] == p_h[k] by {
            assert(sc[a7 + k] == p_h[k]);
        }
    }
}

/// The boolean parses back from its own wire form.
proof fn lemma_bool_inverts(s: Seq<u8>, i: int, b: bool)
    requires
        0 <= i,
        i + ser_bool(b).len() <= s.len(),
        s.subrange(i, i + ser_bool(b).len()) == ser_bool(b),
    ensures
        spec_parse_bool(s, i) == Some((b, i + ser_bool(b).len())),
{
    if b {
        lemma_expect_some(s, i, lit_true());
    } else {
        assert(s[i + 0] == 102) by {
            assert(s.subrange(i, i + ser_bool(b).len())[0] == s[i + 0]);
        }
        lemma_expect_diff(s, i, lit_true(), 0);
        lemma_expect_some(s, i, lit_false());
    }
}

/// The optional data member parses back from its own wire form.  When it
/// is absent, the byte two past the comma of whatever follows — the
/// error key's `e` or the timestamp key's `t` — rules both data forms
/// out.
#[verifier::rlimit(100)]
proof fn lemma_data_inverts(s: Seq<u8>, i: int, d: Option<ResponseData>)
    requires
        0 <= i,
        i + ser_data(d).len() <= s.len(),
        s.subrange(i, i + ser_data(d).len()) == ser_data(d),
        d is None ==> i + 2 < s.len() && (s[i + 2] == 116 || s[i + 2] == 101),
    ensures
        spec_parse_data(s, i) == Some((d, i + ser_data(d).len())),
{
    match d {
        None => {
            lemma_expect_diff(s, i, lit_data_shutdown(), 2);
            lemma_expect_diff(s, i, lit_data_total(), 2);
        },
        Some(ResponseData::Shutdown) => {
            lemma_expect_some(s, i, lit_data_shutdown());
        },
        Some(ResponseData::Status(st)) => {
            let tail = ser_status_tail(st);
            let pc = ser_data(d);
            assert(pc == lit_data_total() + tail);
            assert(s[i + 10] == 116) by {
                assert(s.subrange(i, i + pc.len())[10] == s[i + 10]);
                assert(pc[10] == lit_data_total()[10]);
            }
            lemma_expect_diff(s, i, lit_data_shutdown(), 10);
            assert(s.subrange(i, i + 17) =~= lit_data_total()) by {
                assert forall|k: int| 0 <= k < 17 implies s[i + k] == lit_data_total()[k] by {
                    assert(s.subrange(i, i + pc.len())[k] == s[i + k]);
                    assert(pc[k] == lit_data_total()[k]);
                }
            }
            lemma_expect_some(s, i, lit_data_total());
            assert(s.subrange(i + 17, i + 17 + tail.len() as int) =~= tail) by {
                assert forall|k: int| 0 <= k < tail.len() implies s[i + 17 + k] == tail[k] by {
                    assert(s.subrange(i, i + pc.len())[17 + k] == s[i + (17 + k)]);
                    assert(pc[17 + k] == tail[k]);
                }
            }
            lemma_status_fields_invert(s, i + 17, st);
        },
    }
}

/// The optional error member parses back from its own wire form.  When
/// it is absent, the timestamp key follows, whose third byte differs
/// from the error key's.
#[verifier::rlimit(100)]
proof fn lemma_error_inverts(s: Seq<u8>, i: int, e: Option<Seq<u8>>)
    requires
        0 <= i,
        i + ser_error(e).len() <= s.len(),
        s.subrange(i, i + ser_error(e).len()) == ser_error(e),
        e is None ==> i + 2 < s.len() && s[i + 2] == 116,
    ensures
        spec_parse_error_field(s, i) == Some((e, i + ser_error(e).len())),
{
    match e {
        None => {
            lemma_expect_diff(s, i, lit_error(), 2);
        },
        Some(msg) => {
            let esc = esc_bytes(msg);
            let pd = ser_error(e);
            assert(pd == lit_error() + seq![34u8] + esc + seq![34u8]);
            assert(s.subrange(i, i + 9) =~= lit_error()) by {
                assert forall|k: int| 0 <= k < 9 implies s[i + k] == lit_error()[k] by {
                    assert(s.subrange(i, i + pd.len())[k] == s[i + k]);
                    assert(pd[k] == lit_error()[k]);
                }
            }
            lemma_expect_some(s, i, lit_error());
            assert(s[i + 9] == 34) by {
                assert(s.subrange(i, i + pd.len())[9] == s[i + 9]);
                assert(pd[9] == 34);
            }
            assert(s.subrange(i + 10, i + 10 + esc.len() as int) =~= esc) by {
                assert forall|k: int| 0 <= k < esc.len() implies s[i + 10 + k] == esc[k] by {
                    assert(s.subrange(i, i + pd.len())[10 + k] == s[i + (10 + k)]);
                    assert(pd[10 + k] == esc[k]);
                }
            }
            assert(s[i + 10 + esc.len()] == 34) by {
                assert(s.subrange(i, i + pd.len())[10 + esc.len() as int] == s[i + (10
                    + esc.len())]);
                assert(pd[10 + esc.len() as int] == 34);
            }
            lemma_parse_string_inverts(s, i + 10, msg);
            assert(spec_parse_string(s, i + 9) == Some((msg, i + pd.len())));
        },
    }
}

/// The optional execution-time member parses back from its own wire
/// form.  When it is absent, only the closing brace remains, which is
/// too short for the key.
#[verifier::rlimit(100)]
proof fn lemma_exec_inverts(s: Seq<u8>, i: int, t: Option<u64>)
    requires
        0 <= i,
        i + ser_exec_ms(t).len() <= s.len(),
        s.subrange(i, i + ser_exec_ms(t).len()) == ser_exec_ms(t),
        t is None ==> s.len() < i + 21,
        t is Some ==> i + ser_exec_ms(t).len() < s.len() && s[i + ser_exec_ms(t).len()] == 125,
    ensures
        spec_parse_exec_ms(s, i) == Some((t, i + ser_exec_ms(t).len())),
{
    match t {
        None => {
            assert(spec_expect(s, i, lit_exec_ms()) is None);
        },
        Some(v) => {
            let pg = ser_exec_ms(t);
            assert(pg == lit_exec_ms() + dec_digits(v as nat));
            assert(s.subrange(i, i + 21) =~= lit_exec_ms()) by {
                assert forall|k: int| 0 <= k < 21 implies s[i + k] == lit_exec_ms()[k] by {
                    assert(s.subrange(i, i + pg.len())[k] == s[i + k]);
                    assert(pg[k] == lit_exec_ms()[k]);
                }
            }
            lemma_expect_some(s, i, lit_exec_ms());
            assert(s.subrange(i + 21, i + pg.len()) =~= dec_digits(v as nat)) by {
                assert forall|k: int| 0 <= k < dec_digits(v as nat).len() implies s[i + 21 + k]
                    == dec_digits(v as nat)[k] by {
                    assert(s.subrange(i, i + pg.len())[21 + k] == s[i + (21 + k)]);
                    assert(pg[21 + k] == dec_digits(v as nat)[k]);
                }
            }
            assert(!is_digit(125));
            lemma_parse_u64_inverts(s, i + 21, v);
        },
    }
}

/// The first half of the round trip: the success flag, data and error
/// members of a serialized response parse back to the model's.
#[verifier::rlimit(100)]
#[verifier::spinoff_prover]
proof fn lemma_round_trip_head(m: RespModel)
    ensures
        ({
            let s = spec_ser_response(m);
            let a1 = lit_obj_success().len() as int;
            let a2 = a1 + ser_bool(m.success).len();
            let a3 = a2 + ser_data(m.data).len();
            let a4 = a3 + ser_error(m.error).len();
            &&& spec_expect(s, 0, lit_obj_success()) == Some(a1)
            &&& spec_parse_bool(s, a1) == Some((m.success, a2))
            &&& spec_parse_data(s, a2) == Some((m.data, a3))
            &&& spec_parse_error_field(s, a3) == Some((m.error, a4))
        }),
{
    let s = spec_ser_response(m);
    let p_a = lit_obj_success();
    let p_b = ser_bool(m.success);
    let p_c = ser_data(m.data);
    let p_d = ser_error(m.error);
    let p_e = lit_timestamp();
    let p_f = dec_digits(m.timestamp as nat);
    let p_g = ser_exec_ms(m.execution_time_ms);
    let p_h = lit_close();
    let a1 = p_a.len() as int;
    let a2 = a1 + p_b.len();
    let a3 = a2 + p_c.len();
    let a4 = a3 + p_d.len();
    let a5 = a4 + p_e.len();
    lemma_ser_chunks(m);
    lemma_expect_some(s, 0, p_a);
    lemma_bool_inverts(s, a1, m.success);
    if m.data is None {
        match m.error {
            None => {
                assert(s[a2 + 2] == 116) by {
                    assert(s.subrange(a4, a5)[2] == s[a4 + 2]);
                }
            },
            Some(msg) => {
                assert(s[a2 + 2] == 101) by {
                    assert(s.subrange(a3, a4)[2] == s[a3 + 2]);
                    assert(p_d[2] == lit_error()[2]);
                }
            },
        }
    }
    lemma_data_inverts(s, a2, m.data);
    if m.error is None {
        assert(s[a3 + 2] == 116) by {
            assert(s.subrange(a4, a5)[2] == s[a4 + 2]);
        }
    }
    lemma_error_inverts(s, a3, m.error);
}

/// The second half of the round trip: the timestamp, execution time and
/// closing brace of a serialized response parse back to the model's.
#[verifier::rlimit(100)]
#[verifier::spinoff_prover]
proof fn lemma_round_trip_tail(m: RespModel)
    ensures
        ({
            let s = spec_ser_response(m);
            let a4 = lit_obj_success().len() + ser_bool(m.success).len() + ser_data(m.data).len()
                + ser_error(m.error).len();
            let a5 = a4 + lit_timestamp().len();
            let a6 = a5 + dec_digits(m.timestamp as nat).len();
            let a7 = a6 + ser_exec_ms(m.execution_time_ms).len();
            let a8 = a7 + lit_close().len();
            &&& spec_expect(s, a4 as int, lit_timestamp()) == Some(a5 as int)
            &&& spec_parse_u64(s, a5 as int) == Some((m.timestamp, a6 as int))
            &&& spec_parse_exec_ms(s, a6 as int) == Some((m.execution_time_ms, a7 as int))
            &&& spec_expect(s, a7 as int, lit_close()) == Some(a8 as int)
            &&& s.len() == a8
        }),
{
    let s = spec_ser_response(m);
    let p_e = lit_timestamp();
    let p_f = dec_digits(m.timestamp as nat);
    let p_g = ser_exec_ms(m.execution_time_ms);
    let p_h = lit_close();
    let a4 = lit_obj_success().len() + ser_bool(m.success).len() + ser_data(m.data).len()
        + ser_error(m.error).len();
    let a5 = a4 + p_e.len();
    let a6 = a5 + p_f.len();
    let a7 = a6 + p_g.len();
    let a8 = a7 + p_h.len();
    lemma_ser_chunks(m);
    lemma_expect_some(s, a4 as int, p_e);
    match m.execution_time_ms {
        None => {
            assert(s[a6 as int + 0] == 125) by {
                assert(s.subrange(a7 as int, a8 as int)[0] == s[a7 as int + 0]);
            }
            assert(!is_digit(s[a6 as int]));
        },
        Some(v) => {
            assert(s[a6 as int + 0] == 44) by {
                assert(s.subrange(a6 as int, a7 as int)[0] == s[a6 as int + 0]);
                assert(p_g[0] == lit_exec_ms()[0]);
            }
            assert(!is_digit(s[a6 as int]));
        },
    }
    lemma_parse_u64_inverts(s, a5 as int, m.timestamp);
    if m.execution_time_ms is Some {
        assert(s[a7 as int + 0] == 125) by {
            assert(s.subrange(a7 as int, a8 as int)[0] == s[a7 as int + 0]);
        }
    }
    lemma_exec_inverts(s, a6 as int, m.execution_time_ms);
    lemma_expect_some(s, a7 as int, p_h);
}

/// Chains the parsed members into the whole-response parse.
proof fn lemma_assemble_response(
    s: Seq<u8>,
    m: RespModel,
    a1: int,
    a2: int,
    a3: int,
    a4: int,
    a5: int,
    a6: int,
    a7: int,
    a8: int,
)
    requires
        spec_expect(s, 0, lit_obj_success()) == Some(a1),
        spec_parse_bool(s, a1) == Some((m.success, a2)),
        spec_parse_data(s, a2) == Some((m.data, a3)),
        spec_parse_error_field(s, a3) == Some((m.error, a4)),
        spec_expect(s, a4, lit_timestamp()) == Some(a5),
        spec_parse_u64(s, a5) == Some((m.timestamp, a6)),
        spec_parse_exec_ms(s, a6) == Some((m.execution_time_ms, a7)),
        spec_expect(s, a7, lit_close()) == Some(a8),
        a8 == s.len(),
    ensures
        spec_parse_response(s) == Some(m),
{
    assert(spec_parse_response(s) == Some(
        RespModel {
            success: m.success,
            data: m.data,
            error: m.error,
            timestamp: m.timestamp,
            execution_time_ms: m.execution_time_ms,
        },
    ));
    assert(m == (RespModel {
        success: m.success,
        data: m.data,
        error: m.error,
        timestamp: m.timestamp,
        execution_time_ms: m.execution_time_ms,
    }));
}

/// Round trip: parsing a serialized response yields it back, field for
/// field — timestamp and execution time included when present.
#[verifier::rlimit(100)]
#[verifier::spinoff_prover]
pub proof fn lemma_response_round_trip(m: RespModel)
    ensures
        spec_parse_response(spec_ser_response(m)) == Some(m),
{
    let s = spec_ser_response(m);
    let a1 = lit_obj_success().len() as int;
    let a2 = a1 + ser_bool(m.success).len();
    let a3 = a2 + ser_data(m.data).len();
    let a4 = a3 + ser_error(m.error).len();
    let a5 = a4 + lit_timestamp().len();
    let a6 = a5 + dec_digits(m.timestamp as nat).len();
    let a7 = a6 + ser_exec_ms(m.execution_time_ms).len();
    let a8 = a7 + lit_close().len();
    lemma_round_trip_head(m);
    lemma_round_trip_tail(m);
    lemma_assemble_response(s, m, a1, a2, a3, a4, a5, a6, a7, a8);
}

} // verus!
