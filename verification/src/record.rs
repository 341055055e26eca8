//! Credential records: four opaque fields carried as one colon-delimited line
//! by the provisioning service.

use vstd::prelude::*;
use crate::text::{split_sep, join_sep, split_on, join_with, views_of, extend_with,
    lemma_join_split_identity};

verus! {

/// One provisioned account: four opaque strings, immutable once built.
pub struct CredentialRecord {
    pub address: Vec<char>,
    pub secret: Vec<char>,
    pub refresh_token: Vec<char>,
    pub client_id: Vec<char>,
}

impl CredentialRecord {
    /// The record's fields in wire order.
    pub open spec fn fields(&self) -> Seq<Seq<char>> {
        seq![self.address@, self.secret@, self.refresh_token@, self.client_id@]
    }

    /// The single wire line that carries this record.
    pub open spec fn wire_line(&self) -> Seq<char> {
        join_sep(self.fields(), ':')
    }

    /// What one reveal mode shows of the record: the address and secret pair,
    /// or the refresh-token and client-id pair, colon-joined.
    pub open spec fn reveal_view(&self, show_credentials: bool) -> Seq<char> {
        if show_credentials {
            self.address@.push(':') + self.secret@
        } else {
            self.refresh_token@.push(':') + self.client_id@
        }
    }

    /// Renders the pair that the current reveal mode shows.
    pub fn reveal_pair(&self, show_credentials: bool) -> (out: Vec<char>)
        ensures
            out@ == self.reveal_view(show_credentials),
    {
        let mut out: Vec<char> = Vec::new();
        if show_credentials {
            extend_with(&mut out, &self.address);
            out.push(':');
            extend_with(&mut out, &self.secret);
        } else {
            extend_with(&mut out, &self.refresh_token);
            out.push(':');
            extend_with(&mut out, &self.client_id);
        }
        proof {
            assert(out@ =~= self.reveal_view(show_credentials));
        }
        out
    }
}

/// What one reveal mode shows of each record in a list.
pub open spec fn reveal_views(rs: Seq<CredentialRecord>, show_credentials: bool) -> Seq<Seq<char>> {
    rs.map_values(|r: CredentialRecord| r.reveal_view(show_credentials))
}

/// The clipboard text for a record list: each record's revealed pair, the
/// lines joined with newlines.
pub fn bulk_copy_text(rs: &Vec<CredentialRecord>, show_credentials: bool) -> (out: Vec<char>)
    ensures
        out@ == join_sep(reveal_views(rs@, show_credentials), '\n'),
{
    let mut parts: Vec<Vec<char>> = Vec::new();
    let mut i: usize = 0;
    while i < rs.len()
        invariant
            i <= rs@.len(),
            views_of(parts@) == reveal_views(rs@, show_credentials).take(i as int),
        decreases rs@.len() - i,
    {
        let ghost before = views_of(parts@);
        parts.push(rs[i].reveal_pair(show_credentials));
        proof {
            assert(views_of(parts@) =~= before.push(rs@[i as int].reveal_view(show_credentials)));
            assert(views_of(parts@)
                =~= reveal_views(rs@, show_credentials).take(i + 1 as int));
        }
        i = i + 1;
    }
    proof {
        assert(reveal_views(rs@, show_credentials).take(rs@.len() as int)
            =~= reveal_views(rs@, show_credentials));
    }
    join_with(&parts, '\n')
}

/// A line is a well-formed record when splitting on `:` yields exactly four
/// fields.
pub open spec fn well_formed_line(line: Seq<char>) -> bool {
    split_sep(line, ':').len() == 4
}

/// Parses one line by the four-field colon rule: exactly four colon-delimited
/// fields make a record; any other field count is rejected.
pub fn parse_record(line: &Vec<char>) -> (r: Option<CredentialRecord>)
    ensures
        well_formed_line(line@) ==> (r matches Some(rec) && rec.fields() == split_sep(line@, ':')),
        !well_formed_line(line@) ==> r is None,
{
    let mut parts = split_on(line, ':');
    if parts.len() != 4 {
        return None;
    }
    let ghost ps = split_sep(line@, ':');
    let client_id = parts.pop().unwrap();
    let refresh_token = parts.pop().unwrap();
    let secret = parts.pop().unwrap();
    let address = parts.pop().unwrap();
    let rec = CredentialRecord { address, secret, refresh_token, client_id };
    proof {
        assert(rec.fields() =~= ps);
    }
    Some(rec)
}

/// Rebuilds the wire line of a record: its four fields joined with `:`.
pub fn reconstruct_line(rec: &CredentialRecord) -> (out: Vec<char>)
    ensures
        out@ == rec.wire_line(),
{
    let mut out: Vec<char> = Vec::new();
    extend_with(&mut out, &rec.address);
    out.push(':');
    extend_with(&mut out, &rec.secret);
    out.push(':');
    extend_with(&mut out, &rec.refresh_token);
    out.push(':');
    extend_with(&mut out, &rec.client_id);
    proof {
        let fs = rec.fields();
        let f1 = seq![rec.address@];
        let f2 = seq![rec.address@, rec.secret@];
        let f3 = seq![rec.address@, rec.secret@, rec.refresh_token@];
        assert(fs.drop_last() =~= f3);
        assert(f3.drop_last() =~= f2);
        assert(f2.drop_last() =~= f1);
        assert(join_sep(f1, ':') == rec.address@);
        assert(join_sep(f2, ':') == join_sep(f1, ':').push(':') + rec.secret@);
        assert(join_sep(f3, ':') == join_sep(f2, ':').push(':') + rec.refresh_token@);
        assert(join_sep(fs, ':') == join_sep(f3, ':').push(':') + rec.client_id@);
        assert(out@ =~= join_sep(fs, ':'));
    }
    out
}

/// Round trip: a record parsed from a well-formed four-field line rebuilds
/// that exact line when its fields are rejoined with `:`.
pub proof fn lemma_record_round_trip(rec: CredentialRecord, line: Seq<char>)
    requires
        well_formed_line(line),
        rec.fields() == split_sep(line, ':'),
    ensures
        rec.wire_line() == line,
{
    lemma_join_split_identity(line, ':');
}

} // verus!
