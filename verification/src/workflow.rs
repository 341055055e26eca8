//! Acquisition workflows: turning a fetched provisioning response into a
//! result, by the single-record rule or the permissive bulk rule.

use vstd::prelude::*;
use crate::record::{CredentialRecord, parse_record, well_formed_line};
use crate::text::{split_sep, split_on, views_of, chars_eq, extend_with};

verus! {

/// The kind of account a provisioning request asks for.
#[derive(Clone, Copy, PartialEq, Eq, Structural, Debug)]
pub enum EmailType {
    Random,
    Outlook,
    Hotmail,
}

impl EmailType {
    /// The wire name of the type, as the query string carries it.
    pub open spec fn name_view(&self) -> Seq<char> {
        match self {
            EmailType::Random => seq!['r', 'a', 'n', 'd', 'o', 'm'],
            EmailType::Outlook => seq!['o', 'u', 't', 'l', 'o', 'o', 'k'],
            EmailType::Hotmail => seq!['h', 'o', 't', 'm', 'a', 'i', 'l'],
        }
    }

    /// Renders the wire name of the type.
    pub fn name(&self) -> (out: Vec<char>)
        ensures
            out@ == self.name_view(),
    {
        let mut out: Vec<char> = Vec::new();
        match self {
            EmailType::Random => {
                out.push('r');
                out.push('a');
                out.push('n');
                out.push('d');
                out.push('o');
                out.push('m');
            },
            EmailType::Outlook => {
                out.push('o');
                out.push('u');
                out.push('t');
                out.push('l');
                out.push('o');
                out.push('o');
                out.push('k');
            },
            EmailType::Hotmail => {
                out.push('h');
                out.push('o');
                out.push('t');
                out.push('m');
                out.push('a');
                out.push('i');
                out.push('l');
            },
        }
        proof {
            assert(out@ =~= self.name_view());
        }
        out
    }

    /// Reads a wire name back: exactly the three known names are accepted.
    pub fn from_name(s: &Vec<char>) -> (r: Option<EmailType>)
        ensures
            r matches Some(t) ==> s@ == t.name_view(),
            r is None ==> {
                &&& s@ != EmailType::Random.name_view()
                &&& s@ != EmailType::Outlook.name_view()
                &&& s@ != EmailType::Hotmail.name_view()
            },
    {
        if chars_eq(s, &EmailType::Random.name()) {
            Some(EmailType::Random)
        } else if chars_eq(s, &EmailType::Outlook.name()) {
            Some(EmailType::Outlook)
        } else if chars_eq(s, &EmailType::Hotmail.name()) {
            Some(EmailType::Hotmail)
        } else {
            None
        }
    }
}

/// The query fragment that parameterizes a provisioning request.
pub open spec fn query_params_view(t: EmailType, token: Seq<char>) -> Seq<char> {
    seq!['e', 'm', 'a', 'i', 'l', '_', 't', 'y', 'p', 'e', '='] + t.name_view()
        + seq!['&', 'c', 'a', 'p', 't', 'c', 'h', 'a', '='] + token
}

/// Builds the query fragment `email_type=<name>&captcha=<token>` that both
/// acquisition endpoints take.
pub fn query_params(t: EmailType, token: &Vec<char>) -> (out: Vec<char>)
    ensures
        out@ == query_params_view(t, token@),
{
    let mut out: Vec<char> = Vec::new();
    out.push('e');
    out.push('m');
    out.push('a');
    out.push('i');
    out.push('l');
    out.push('_');
    out.push('t');
    out.push('y');
    out.push('p');
    out.push('e');
    out.push('=');
    let name = t.name();
    extend_with(&mut out, &name);
    out.push('&');
    out.push('c');
    out.push('a');
    out.push('p');
    out.push('t');
    out.push('c');
    out.push('h');
    out.push('a');
    out.push('=');
    extend_with(&mut out, token);
    proof {
        assert(out@ =~= query_params_view(t, token@));
    }
    out
}

/// Why an acquisition attempt failed.
pub enum AcquireError {
    /// No verification token was present when the attempt started.
    NoToken,
    /// The bulk endpoint throttled the request.
    RateLimited,
    /// The payload had none of the recognised shapes.
    MalformedResponse,
    /// The network transport itself faulted.
    Transport,
    /// The verification widget subsystem is unavailable.
    VerificationSubsystem,
    /// The service answered with its error sentinel; the payload is carried
    /// verbatim.
    Provider { message: Vec<char> },
}

/// What came back from one transport attempt: a status and body, or a fault.
pub enum FetchOutcome {
    Response { status: u16, body: Vec<char> },
    TransportFailed,
}

/// The result of a single acquisition.
pub enum SingleResult {
    Success { record: CredentialRecord },
    Failure { error: AcquireError },
}

/// The result of a bulk acquisition.
pub enum BulkResult {
    Success { records: Vec<CredentialRecord> },
    Failure { error: AcquireError },
}

/// The prefix that marks a service-side error payload.
pub open spec fn error_sentinel() -> Seq<char> {
    seq!['E', 'r', 'r', 'o', 'r', ':']
}

pub open spec fn has_error_sentinel(s: Seq<char>) -> bool {
    s.len() >= 6 && s.take(6) == error_sentinel()
}

fn starts_with_sentinel(s: &Vec<char>) -> (r: bool)
    ensures
        r == has_error_sentinel(s@),
{
    if s.len() < 6 {
        return false;
    }
    let r = s[0] == 'E' && s[1] == 'r' && s[2] == 'r' && s[3] == 'o' && s[4] == 'r'
        && s[5] == ':';
    proof {
        let t = s@.take(6);
        assert(t[0] == s@[0] && t[1] == s@[1] && t[2] == s@[2] && t[3] == s@[3] && t[4] == s@[4]
            && t[5] == s@[5]);
        let e = error_sentinel();
        assert(e[0] == 'E' && e[1] == 'r' && e[2] == 'r' && e[3] == 'o' && e[4] == 'r'
            && e[5] == ':');
        if r {
            assert(t =~= e);
        }
    }
    r
}

/// Interprets a single-acquisition response: a transport fault is a
/// `Transport` failure; a body with the error sentinel is propagated verbatim
/// as a `Provider` failure; a well-formed four-field line is a success; any
/// other shape is `MalformedResponse`.
pub fn interpret_single(f: FetchOutcome) -> (r: SingleResult)
    ensures
        f is TransportFailed ==> (r matches SingleResult::Failure { error }
            && error is Transport),
        f matches FetchOutcome::Response { status, body } ==> {
            &&& has_error_sentinel(body@) ==> (r matches SingleResult::Failure { error }
                && error matches AcquireError::Provider { message } && message@ == body@)
            &&& !has_error_sentinel(body@) && well_formed_line(body@)
                ==> (r matches SingleResult::Success { record }
                    && record.fields() == split_sep(body@, ':'))
            &&& !has_error_sentinel(body@) && !well_formed_line(body@)
                ==> (r matches SingleResult::Failure { error } && error is MalformedResponse)
        },
{
    match f {
        FetchOutcome::TransportFailed => SingleResult::Failure {
            error: AcquireError::Transport,
        },
        FetchOutcome::Response { status: _, body } => {
            if starts_with_sentinel(&body) {
                SingleResult::Failure { error: AcquireError::Provider { message: body } }
            } else {
                match parse_record(&body) {
                    Some(record) => SingleResult::Success { record },
                    None => SingleResult::Failure { error: AcquireError::MalformedResponse },
                }
            }
        },
    }
}

/// The fields of the well-formed four-field lines, in order; all other lines
/// are dropped.
pub open spec fn kept_fields(lines: Seq<Seq<char>>) -> Seq<Seq<Seq<char>>>
    decreases lines.len(),
{
    if lines.len() == 0 {
        Seq::<Seq<Seq<char>>>::empty()
    } else {
        let prefix = kept_fields(lines.drop_last());
        if well_formed_line(lines.last()) {
            prefix.push(split_sep(lines.last(), ':'))
        } else {
            prefix
        }
    }
}

/// The fields of each record in a list, in order.
pub open spec fn records_fields(rs: Seq<CredentialRecord>) -> Seq<Seq<Seq<char>>> {
    rs.map_values(|r: CredentialRecord| r.fields())
}

/// Parses a newline-delimited bulk body permissively: each well-formed
/// four-field line becomes a record, every other line is silently dropped.
pub fn parse_bulk_body(body: &Vec<char>) -> (recs: Vec<CredentialRecord>)
    ensures
        records_fields(recs@) == kept_fields(split_sep(body@, '\n')),
{
    let lines = split_on(body, '\n');
    let mut recs: Vec<CredentialRecord> = Vec::new();
    let mut i: usize = 0;
    proof {
        assert(views_of(lines@).take(0) =~= Seq::<Seq<char>>::empty());
        assert(records_fields(recs@) =~= kept_fields(views_of(lines@).take(0)));
    }
    while i < lines.len()
        invariant
            i <= lines@.len(),
            views_of(lines@) == split_sep(body@, '\n'),
            records_fields(recs@) == kept_fields(views_of(lines@).take(i as int)),
        decreases lines@.len() - i,
    {
        let ghost vs = views_of(lines@);
        let ghost before = records_fields(recs@);
        proof {
            assert(vs.take(i + 1 as int).drop_last() =~= vs.take(i as int));
            assert(vs.take(i + 1 as int).last() == vs[i as int]);
        }
        match parse_record(&lines[i]) {
            Some(rec) => {
                recs.push(rec);
                proof {
                    assert(records_fields(recs@) =~= before.push(split_sep(vs[i as int], ':')));
                }
            },
            None => {},
        }
        i = i + 1;
    }
    proof {
        assert(views_of(lines@).take(lines@.len() as int) =~= views_of(lines@));
    }
    recs
}

/// Interprets a bulk-acquisition response: a transport fault is a `Transport`
/// failure; the rate-limit status short-circuits to `RateLimited` with no
/// parse attempt, whatever the body holds; any other response is a success
/// carrying the permissively parsed records.
pub fn interpret_bulk(f: FetchOutcome) -> (r: BulkResult)
    ensures
        f is TransportFailed ==> (r matches BulkResult::Failure { error } && error is Transport),
        f matches FetchOutcome::Response { status, body } ==> {
            &&& status == 429 ==> (r matches BulkResult::Failure { error }
                && error is RateLimited)
            &&& status != 429 ==> (r matches BulkResult::Success { records }
                && records_fields(records@) == kept_fields(split_sep(body@, '\n')))
        },
{
    match f {
        FetchOutcome::TransportFailed => BulkResult::Failure { error: AcquireError::Transport },
        FetchOutcome::Response { status, body } => {
            if status == 429 {
                BulkResult::Failure { error: AcquireError::RateLimited }
            } else {
                BulkResult::Success { records: parse_bulk_body(&body) }
            }
        },
    }
}

} // verus!
