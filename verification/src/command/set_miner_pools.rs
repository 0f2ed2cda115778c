//! The `set.miner.pools` command: configure the miner's pools.
//!
//! A secured and encrypted command: its parameter is the JSON array of
//! pool entries, and that array text is encrypted with the authentication
//! block's key before it is sent.

use vstd::prelude::*;

use crate::command::Command;
use crate::error::Error;
use crate::json::{
    append_json_string, lemma_join_comma_snoc, push_char, spec_join_comma, spec_json_string,
};

verus! {

/// One pool entry.
#[derive(Debug)]
pub struct SetMinerPoolsParamItem {
    /// Stratum URL; required.
    pub pool: String,
    /// Worker username; required.
    pub worker: String,
    /// Worker password; may be empty.
    pub password: String,
}

/// The full pool selection: a vector of entries.
pub type SetMinerPoolsParam = Vec<SetMinerPoolsParamItem>;

/// The `set.miner.pools` operation.
#[derive(Debug, Default)]
pub struct SetMinerPools(pub SetMinerPoolsParam);

/// The JSON object written for one pool entry: keys `pool`, `worker` and
/// `passwd`, in that order.
pub open spec fn spec_pool_item_json(it: SetMinerPoolsParamItem) -> Seq<char> {
    seq!['{'] + spec_json_string("pool"@) + seq![':'] + spec_json_string(it.pool@) + seq![',']
        + spec_json_string("worker"@) + seq![':'] + spec_json_string(it.worker@) + seq![',']
        + spec_json_string("passwd"@) + seq![':'] + spec_json_string(it.password@) + seq!['}']
}

/// The JSON objects of all entries, in order.
pub open spec fn spec_pool_items_json(items: Seq<SetMinerPoolsParamItem>) -> Seq<Seq<char>> {
    items.map_values(|it: SetMinerPoolsParamItem| spec_pool_item_json(it))
}

/// The JSON array written for a pool selection.
pub open spec fn spec_pools_json(items: Seq<SetMinerPoolsParamItem>) -> Seq<char> {
    seq!['['] + spec_join_comma(spec_pool_items_json(items)) + seq![']']
}

/// Append the JSON object for one pool entry to `out`.
fn append_pool_item(out: &mut String, item: &SetMinerPoolsParamItem)
    ensures
        final(out)@ == old(out)@ + spec_pool_item_json(*item),
{
    push_char(out, '{');
    append_json_string(out, "pool");
    push_char(out, ':');
    append_json_string(out, item.pool.as_str());
    push_char(out, ',');
    append_json_string(out, "worker");
    push_char(out, ':');
    append_json_string(out, item.worker.as_str());
    push_char(out, ',');
    append_json_string(out, "passwd");
    push_char(out, ':');
    append_json_string(out, item.password.as_str());
    push_char(out, '}');
    proof {
        assert(out@ =~= old(out)@ + spec_pool_item_json(*item));
    }
}

impl Command for SetMinerPools {
    open spec fn spec_cmd_name() -> Seq<char> {
        "set.miner.pools"@
    }

    open spec fn spec_secured() -> bool {
        true
    }

    open spec fn spec_encrypted() -> bool {
        true
    }

    open spec fn spec_params(&self) -> Option<Seq<char>> {
        Some(spec_pools_json(self.0@))
    }

    fn cmd_name() -> (r: &'static str) {
        "set.miner.pools"
    }

    fn secured() -> (r: bool) {
        true
    }

    fn encrypted() -> (r: bool) {
        true
    }

    fn params(&self) -> (r: Result<Option<String>, Error>) {
        let ghost gitems = spec_pool_items_json(self.0@);
        let mut out = String::new();
        push_char(&mut out, '[');
        let mut i: usize = 0;
        while i < self.0.len()
            invariant
                i <= self.0@.len(),
                gitems == spec_pool_items_json(self.0@),
                gitems.len() == self.0@.len(),
                out@ == seq!['['] + spec_join_comma(gitems.subrange(0, i as int)),
            decreases self.0@.len() - i,
        {
            if i > 0 {
                push_char(&mut out, ',');
            }
            let ghost pre = out@;
            append_pool_item(&mut out, &self.0[i]);
            proof {
                assert(gitems[i as int] == spec_pool_item_json(self.0@[i as int]));
                assert(gitems.subrange(0, i + 1) =~= gitems.subrange(0, i as int).push(
                    gitems[i as int],
                ));
                lemma_join_comma_snoc(gitems.subrange(0, i as int), gitems[i as int]);
                if i == 0 {
                    assert(out@ =~= seq!['['] + gitems[0]);
                }
            }
            i = i + 1;
        }
        push_char(&mut out, ']');
        proof {
            assert(gitems.subrange(0, gitems.len() as int) =~= gitems);
            assert(out@ =~= spec_pools_json(self.0@));
        }
        Ok(Some(out))
    }
}

} // verus!
