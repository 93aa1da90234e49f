//! The configuration of the tool: the funder's key and the endpoints of the
//! networks it knows.

use vstd::prelude::*;

verus! {

/// The configuration as it is read from the configuration file.
///
/// Each element of `network` is one table from network names to endpoint
/// addresses, held as its entries.
#[derive(Debug, PartialEq, Eq)]
pub struct Config {
    pub supplier_private_key: String,
    pub network: Vec<Vec<(String, String)>>,
}

/// The address under `name` in one table: that of the first entry with this
/// name.
pub open spec fn table_entry(entries: Seq<(String, String)>, name: Seq<char>) -> Option<Seq<char>>
    decreases entries.len(),
{
    if entries.len() == 0 {
        None
    } else if entries[0].0@ == name {
        Some(entries[0].1@)
    } else {
        table_entry(entries.drop_first(), name)
    }
}

/// The address of a network: that of the first table that knows the name.
pub open spec fn rpc_url(tables: Seq<Vec<(String, String)>>, name: Seq<char>) -> Option<Seq<char>>
    decreases tables.len(),
{
    if tables.len() == 0 {
        None
    } else if table_entry(tables[0]@, name) is Some {
        table_entry(tables[0]@, name)
    } else {
        rpc_url(tables.drop_first(), name)
    }
}

/// No entry of the table carries the name of another, as in a table that was
/// read from a map.
pub open spec fn names_unique(entries: Seq<(String, String)>) -> bool {
    forall|i: int, j: int|
        0 <= i < j < entries.len() ==> (#[trigger] entries[i]).0@ != (#[trigger] entries[j]).0@
}

impl Config {
    /// No table names a network twice.
    pub open spec fn wf(&self) -> bool {
        forall|t: int| 0 <= t < self.network.len() ==> names_unique((#[trigger] self.network[t])@)
    }
}

/// A table without repeated names is a map: whichever entry carries a name,
/// its address is the one that is found, wherever the entry stands.
pub proof fn law_table_is_a_map(entries: Seq<(String, String)>, name: Seq<char>, i: int)
    requires
        names_unique(entries),
        0 <= i < entries.len(),
        entries[i].0@ == name,
    ensures
        table_entry(entries, name) == Some(entries[i].1@),
    decreases entries.len(),
{
    if i > 0 {
        let rest = entries.drop_first();
        assert(entries[0].0@ != entries[i].0@);
        assert forall|a: int, b: int| 0 <= a < b < rest.len() implies (#[trigger] rest[a]).0@ != (
        #[trigger] rest[b]).0@ by {
            assert(rest[a] == entries[a + 1]);
            assert(rest[b] == entries[b + 1]);
        }
        assert(rest[i - 1] == entries[i]);
        law_table_is_a_map(rest, name, i - 1);
    }
}

/// A table has an entry for a name exactly if one of its entries carries
/// the name.
pub proof fn lemma_table_entry(entries: Seq<(String, String)>, name: Seq<char>)
    ensures
        table_entry(entries, name) is Some <==> exists|i: int|
            0 <= i < entries.len() && (#[trigger] entries[i]).0@ == name,
    decreases entries.len(),
{
    if entries.len() > 0 {
        let rest = entries.drop_first();
        lemma_table_entry(rest, name);
        if entries[0].0@ != name {
            if table_entry(rest, name) is Some {
                let i = choose|i: int| 0 <= i < rest.len() && (#[trigger] rest[i]).0@ == name;
                assert(entries[i + 1] == rest[i]);
            }
            if exists|i: int| 0 <= i < entries.len() && (#[trigger] entries[i]).0@ == name {
                let i = choose|i: int| 0 <= i < entries.len() && (#[trigger] entries[i]).0@ == name;
                assert(rest[i - 1] == entries[i]);
            }
        }
    }
}

/// Looks a name up in one table.
fn find_in_table(entries: &Vec<(String, String)>, name: &String) -> (r: Option<String>)
    ensures
        r is Some <==> table_entry(entries@, name@) is Some,
        r matches Some(url) ==> table_entry(entries@, name@) == Some(url@),
{
    let mut i: usize = 0;
    assert(entries@.skip(0) =~= entries@);
    while i < entries.len()
        invariant
            i <= entries.len(),
            table_entry(entries@, name@) == table_entry(entries@.skip(i as int), name@),
        decreases entries.len() - i,
    {
        if entries[i].0 == *name {
            assert(entries@.skip(i as int)[0] == entries@[i as int]);
            return Some(entries[i].1.clone());
        }
        assert(entries@.skip(i as int).drop_first() =~= entries@.skip(i + 1));
        assert(entries@.skip(i as int)[0] == entries@[i as int]);
        i += 1;
    }
    None
}

/// The endpoint address of a network: the tables are searched in their
/// order, and the first that knows the name gives the address.
pub fn get_rpc_from_config(config: &Config, network: &String) -> (r: Option<String>)
    ensures
        r is Some <==> rpc_url(config.network@, network@) is Some,
        r matches Some(url) ==> rpc_url(config.network@, network@) == Some(url@),
        r is None <==> forall|t: int, i: int|
            0 <= t < config.network.len() && 0 <= i < config.network[t].len() ==> (
            #[trigger] config.network[t][i]).0@ != network@,
{
    let mut t: usize = 0;
    assert(config.network@.skip(0) =~= config.network@);
    while t < config.network.len()
        invariant
            t <= config.network.len(),
            rpc_url(config.network@, network@) == rpc_url(
                config.network@.skip(t as int),
                network@,
            ),
            forall|u: int, i: int|
                0 <= u < t && 0 <= i < config.network[u].len() ==> (
                #[trigger] config.network[u][i]).0@ != network@,
        decreases config.network.len() - t,
    {
        let found = find_in_table(&config.network[t], network);
        proof {
            lemma_table_entry(config.network[t as int]@, network@);
            assert(config.network@.skip(t as int)[0] == config.network@[t as int]);
            assert(config.network@.skip(t as int).drop_first() =~= config.network@.skip(t + 1));
        }
        if found.is_some() {
            return found;
        }
        t += 1;
    }
    None
}

/// Takes the value out of a result that is known to hold one. `msg` says
/// what was being done; it is what a caller reports where there is no value.
pub fn log_and_panic<T, E: std::fmt::Debug>(result: Result<T, E>, msg: &str) -> (r: T)
    requires
        result is Ok,
    ensures
        result == Ok::<T, E>(r),
{
    result.unwrap()
}

} // verus!
