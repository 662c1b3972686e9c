//! What holds of every request, whatever the chain answers.
use vstd::prelude::*;
use crate::chain::{
    checksum_of, lower_hex, hex_digit, is_hex_digit, is_blank, hex_value, upper_hex_char,
    address_of_text, strip_0x, without_blanks, hex_bytes,
};
use crate::exec::{ExecRequest, Fault, first_fault};
use crate::flow::{Action, Outcome, Request, Session, Stage, session_wf, decided_on_code};
use crate::wallet::{WalletTemplate, wallet_address_of};

verus! {

/// The address that an action reports, if it ends an info request.
pub open spec fn reported_address(a: Action) -> Option<Seq<char>> {
    match a {
        Action::Finish(Ok(Outcome::Info(i))) => Some(i.address@),
        _ => None,
    }
}

/// The address that an info request reports depends on the template, the
/// owner and the factory's creation code alone: two requests for one owner
/// report the same address, whether or not the wallet was deployed when
/// either asked.
pub proof fn lemma_info_address_deterministic(
    t: WalletTemplate,
    s1: Session,
    s2: Session,
    code1: Seq<u8>,
    code2: Seq<u8>,
    n1: Option<Session>,
    a1: Action,
    n2: Option<Session>,
    a2: Action,
)
    requires
        session_wf(t, s1),
        session_wf(t, s2),
        s1.stage == Stage::AwaitCode,
        s2.stage == Stage::AwaitCode,
        s1.request is Info,
        s2.request is Info,
        s1.owner == s2.owner,
        s1.init_code@ == s2.init_code@,
        decided_on_code(t, s1, code1, n1, a1),
        decided_on_code(t, s2, code2, n2, a2),
    ensures
        reported_address(a1) == Some(checksum_of(wallet_address_of(t, s1.owner@, s1.init_code@))),
        reported_address(a1) == reported_address(a2),
{
}

/// A deploy request submits the creation of the wallet while no code lives
/// at its address, and once the creation is mined, and code lives there, a
/// second one is refused as already existing, with nothing submitted.
pub proof fn lemma_deploy_then_refused(
    t: WalletTemplate,
    s: Session,
    code_before: Seq<u8>,
    code_after: Seq<u8>,
    n1: Option<Session>,
    a1: Action,
    n2: Option<Session>,
    a2: Action,
)
    requires
        s.stage == Stage::AwaitCode,
        s.request is Deploy,
        code_before.len() == 0,
        code_after.len() > 0,
        decided_on_code(t, s, code_before, n1, a1),
        decided_on_code(t, s, code_after, n2, a2),
    ensures
        a1 is CreateProxy,
        n1 matches Some(n) && n.stage == Stage::AwaitReceipt,
        a2 matches Action::Finish(Err(e)) && e is AlreadyExists,
        n2 is None,
{
}

/// A transaction for an owner whose wallet holds no code is refused as not
/// deployed, whatever the request holds.
pub proof fn lemma_exec_needs_deployment(
    t: WalletTemplate,
    s: Session,
    q: ExecRequest,
    code: Seq<u8>,
    n: Option<Session>,
    a: Action,
)
    requires
        s.stage == Stage::AwaitCode,
        s.request == Request::Exec(q),
        code.len() == 0,
        decided_on_code(t, s, code, n, a),
    ensures
        a matches Action::Finish(Err(e)) && e is NotDeployed,
        n is None,
{
}

/// An operation code above one is refused as bad parameters before any
/// other field is looked at; codes zero and one pass that check.
pub proof fn lemma_operation_code(
    t: WalletTemplate,
    s: Session,
    q: ExecRequest,
    code: Seq<u8>,
    n: Option<Session>,
    a: Action,
)
    requires
        s.stage == Stage::AwaitCode,
        s.request == Request::Exec(q),
        code.len() > 0,
        decided_on_code(t, s, code, n, a),
    ensures
        q.operation > 1 ==> first_fault(q) == Some(Fault::Operation)
            && (a matches Action::Finish(Err(e)) && e is BadParams),
        q.operation <= 1 ==> first_fault(q) != Some(Fault::Operation),
{
}

} // verus!

verus! {

proof fn lemma_lower_hex(b: Seq<u8>)
    ensures
        lower_hex(b).len() == 2 * b.len(),
        forall|i: int| 0 <= i < b.len() ==> #[trigger] lower_hex(b)[2 * i] == hex_digit(b[i] as nat / 16)
            && lower_hex(b)[2 * i + 1] == hex_digit(b[i] as nat % 16),
    decreases b.len(),
{
    if b.len() > 0 {
        lemma_lower_hex(b.drop_last());
        assert forall|i: int| 0 <= i < b.len() implies #[trigger] lower_hex(b)[2 * i] == hex_digit(b[i] as nat / 16)
            && lower_hex(b)[2 * i + 1] == hex_digit(b[i] as nat % 16) by {
            if i < b.len() - 1 {
                assert(b.drop_last()[i] == b[i]);
                assert(lower_hex(b.drop_last())[2 * i] == hex_digit(b.drop_last()[i] as nat / 16));
            }
        }
    }
}

proof fn lemma_hex_digit(v: nat)
    requires
        v < 16,
    ensures
        is_hex_digit(hex_digit(v)),
        !is_blank(hex_digit(v)),
        hex_value(hex_digit(v)) == v,
        is_hex_digit(upper_hex_char(hex_digit(v))),
        !is_blank(upper_hex_char(hex_digit(v))),
        hex_value(upper_hex_char(hex_digit(v))) == v,
{
}

proof fn lemma_without_blanks_unchanged(t: Seq<char>)
    requires
        forall|i: int| 0 <= i < t.len() ==> !is_blank(#[trigger] t[i]),
    ensures
        without_blanks(t) == t,
    decreases t.len(),
{
    if t.len() > 0 {
        lemma_without_blanks_unchanged(t.drop_last());
        assert(t.drop_last().push(t.last()) =~= t);
    }
}

/// The address an info request reports is `0x` and 40 hexadecimal digits,
/// and reads back as the wallet's address.
pub proof fn lemma_checksum_reads_back(a: Seq<u8>)
    requires
        a.len() == 20,
    ensures
        checksum_of(a).len() == 42,
        address_of_text(checksum_of(a)) == Some(a),
{
    let lower = lower_hex(a);
    lemma_lower_hex(a);
    let c = checksum_of(a);
    let body = c.subrange(2, 42);
    assert(strip_0x(c) == body);
    assert forall|i: int| 0 <= i < 40 implies is_hex_digit(#[trigger] body[i]) && !is_blank(body[i])
        && hex_value(body[i]) == hex_value(lower[i]) && is_hex_digit(lower[i]) by {
        let k = i / 2;
        if i % 2 == 0 {
            assert(lower[2 * k] == hex_digit(a[k] as nat / 16));
            lemma_hex_digit(a[k] as nat / 16);
        } else {
            assert(lower[2 * k] == hex_digit(a[k] as nat / 16));
            assert(i == 2 * k + 1);
            lemma_hex_digit(a[k] as nat % 16);
        }
    }
    assert forall|i: int| 0 <= i < body.len() implies !is_blank(#[trigger] body[i]) by {
        assert(!is_blank(body[i]));
    }
    lemma_without_blanks_unchanged(body);
    assert forall|k: int| 0 <= k < 20 implies #[trigger] hex_bytes(body)[k] == a[k] by {
        assert(hex_value(body[2 * k]) == hex_value(lower[2 * k]));
        assert(hex_value(body[2 * k + 1]) == hex_value(lower[2 * k + 1]));
        lemma_hex_digit(a[k] as nat / 16);
        lemma_hex_digit(a[k] as nat % 16);
        assert(lower[2 * k] == hex_digit(a[k] as nat / 16));
        assert(lower[2 * k + 1] == hex_digit(a[k] as nat % 16));
    }
    assert(hex_bytes(body) =~= a);
    assert forall|i: int| 0 <= i < body.len() implies is_hex_digit(#[trigger] body[i]) || is_blank(body[i]) by {
        assert(is_hex_digit(body[i]));
    }
}

} // verus!
