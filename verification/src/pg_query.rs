//! The texts of the delay-table statements: the fixed ones, and those that
//! take a list of ids, with one numbered placeholder per id.
use vstd::prelude::*;

use crate::text::{copy_str, decimal, join, push_char, push_decimal, seq_contains};

verus! {

/// `$1,$2,...,$n`.
pub open spec fn placeholders(n: nat) -> Seq<char> {
    join(Seq::new(n, |i: int| seq!['$'] + decimal((i + 1) as nat)), seq![','])
}

/// `prefix` followed by the placeholders of `n` ids and a closing
/// parenthesis.
pub open spec fn in_list_query_spec(prefix: Seq<char>, n: nat) -> Seq<char> {
    prefix + placeholders(n) + seq![')']
}

pub open spec fn delete_fired_prefix() -> Seq<char> {
    "DELETE FROM hanger WHERE id IN ("@
}

pub open spec fn reset_to_init_prefix() -> Seq<char> {
    "UPDATE hanger SET readied_at=null , readied_by=null  WHERE id IN  ("@
}

/// `prefix`, then `$1,...,$n`, then `)`. At least one id is needed: with
/// none there is no placeholder list to close.
pub fn in_list_query(prefix: &str, n: usize) -> (res: String)
    requires
        n >= 1,
    ensures
        res@ == in_list_query_spec(prefix@, n as nat),
{
    let ghost items = Seq::new(n as nat, |i: int| seq!['$'] + decimal((i + 1) as nat));
    let mut query = copy_str(prefix);
    let mut i: usize = 0;
    while i < n
        invariant
            items == Seq::new(n as nat, |i: int| seq!['$'] + decimal((i + 1) as nat)),
            i <= n,
            query@ == prefix@ + join(items.take(i as int), seq![',']),
        decreases n - i,
    {
        if i > 0 {
            push_char(&mut query, ',');
        }
        push_char(&mut query, '$');
        push_decimal(&mut query, (i + 1) as u64);
        assert(items.take(i + 1).drop_last() =~= items.take(i as int));
        assert(items[i as int] == seq!['$'] + decimal((i + 1) as nat));
        assert(query@ =~= prefix@ + join(items.take(i + 1), seq![',']));
        i = i + 1;
    }
    push_char(&mut query, ')');
    assert(items.take(n as int) =~= items);
    query
}

/// The statement that deletes the published rows of `n` ids.
pub fn delete_fired_query(n: usize) -> (res: String)
    requires
        n >= 1,
    ensures
        res@ == in_list_query_spec(delete_fired_prefix(), n as nat),
{
    in_list_query("DELETE FROM hanger WHERE id IN (", n)
}

/// The statement that puts the rows of `n` ids back in their initial state
/// (not readied by any node).
pub fn reset_to_init_query(n: usize) -> (res: String)
    requires
        n >= 1,
    ensures
        res@ == in_list_query_spec(reset_to_init_prefix(), n as nat),
{
    in_list_query("UPDATE hanger SET readied_at=null , readied_by=null  WHERE id IN  (", n)
}

/// Parks a message: id, deadline, headers, key and payload.
pub open spec fn insert_statement() -> Seq<char> {
    "INSERT INTO hanger (id, deadline,  message_headers, message_key, message_value)
        VALUES ($1, $2 ,$3, $4, $5 )"@
}

/// Marks the rows whose deadline has passed and that no node has readied
/// as readied by a node, and returns them.
pub open spec fn ready_to_fire_statement() -> Seq<char> {
    "UPDATE hanger SET readied_at = $1, readied_by = $2 where deadline < $3 AND readied_at IS NULL RETURNING id, deadline, readied_at, readied_by, message_headers, message_key, message_value"@
}

/// The rows readied after a given instant, latest deadline first.
pub open spec fn failed_to_fire_statement() -> Seq<char> {
    "SELECT * from hanger where readied_at > $1 ORDER BY deadline DESC"@
}

/// The statement that parks a message (see `insert_statement`).
pub fn insert_query() -> (res: String)
    ensures
        res@ == insert_statement(),
{
    copy_str(
        "INSERT INTO hanger (id, deadline,  message_headers, message_key, message_value)
        VALUES ($1, $2 ,$3, $4, $5 )",
    )
}

/// The statement that readies the rows due (see `ready_to_fire_statement`).
pub fn ready_to_fire_query() -> (res: String)
    ensures
        res@ == ready_to_fire_statement(),
{
    copy_str(
        "UPDATE hanger SET readied_at = $1, readied_by = $2 where deadline < $3 AND readied_at IS NULL RETURNING id, deadline, readied_at, readied_by, message_headers, message_key, message_value",
    )
}

/// The statement that lists the rows readied after an instant (see
/// `failed_to_fire_statement`).
pub fn failed_to_fire_query() -> (res: String)
    ensures
        res@ == failed_to_fire_statement(),
{
    copy_str("SELECT * from hanger where readied_at > $1 ORDER BY deadline DESC")
}

/// The ready statement marks as readied by `$2` at `$1` exactly the rows
/// whose deadline is before `$3` and that no node has readied yet, and
/// returns every column of them.
pub proof fn law_ready_statement_picks_unreadied_due_rows()
    ensures
        seq_contains(ready_to_fire_statement(), "SET readied_at = $1, readied_by = $2"@),
        seq_contains(ready_to_fire_statement(), "where deadline < $3"@),
        seq_contains(ready_to_fire_statement(), "AND readied_at IS NULL"@),
        seq_contains(
            ready_to_fire_statement(),
            "RETURNING id, deadline, readied_at, readied_by, message_headers, message_key, message_value"@,
        ),
{
    let s = ready_to_fire_statement();
    reveal_strlit(
        "UPDATE hanger SET readied_at = $1, readied_by = $2 where deadline < $3 AND readied_at IS NULL RETURNING id, deadline, readied_at, readied_by, message_headers, message_key, message_value",
    );
    reveal_strlit("SET readied_at = $1, readied_by = $2");
    reveal_strlit("where deadline < $3");
    reveal_strlit("AND readied_at IS NULL");
    reveal_strlit(
        "RETURNING id, deadline, readied_at, readied_by, message_headers, message_key, message_value",
    );
    let n1 = "SET readied_at = $1, readied_by = $2"@;
    let n2 = "where deadline < $3"@;
    let n3 = "AND readied_at IS NULL"@;
    let n4 = "RETURNING id, deadline, readied_at, readied_by, message_headers, message_key, message_value"@;
    assert(s.subrange(14, 14int + n1.len()) =~= n1);
    assert(s.subrange(51, 51int + n2.len()) =~= n2);
    assert(s.subrange(71, 71int + n3.len()) =~= n3);
    assert(s.subrange(94, 94int + n4.len()) =~= n4);
}

} // verus!
