//! Reading records: the calls that fetch them, and the envelopes that they
//! come in.

use crate::client::Client;
use crate::dispatch::call_request;
use crate::dispatch::starts;
use crate::dispatch::Pending;
use crate::storage::Storage;
use crate::wire::pairs_of;
use crate::wire::Method;
use vstd::prelude::*;

verus! {

/// The procedure that reads one record.
pub const GET_RECORD: &'static str = "com.atproto.repo.getRecord";

/// The procedure that lists the records of a collection.
pub const LIST_RECORDS: &'static str = "com.atproto.repo.listRecords";

/// A record as the server hands it out: where it lives, the hash of its
/// content, and the content itself.
#[derive(Debug)]
pub struct GetRecord<D> {
    pub uri: String,
    pub cid: String,
    pub value: D,
}

/// A list of records as the server hands it out.
#[derive(Debug)]
pub struct ListRecords<D> {
    pub records: Vec<GetRecord<D>>,
}

impl<D> GetRecord<D> {
    /// The content of the record.
    pub fn into_value(self) -> (value: D)
        ensures
            value == self.value,
    {
        self.value
    }
}

/// The contents of a list of records, in the order of the list.
pub open spec fn values_of<D>(records: Seq<GetRecord<D>>) -> Seq<D> {
    records.map_values(|record: GetRecord<D>| record.value)
}

impl<D> ListRecords<D> {
    /// The contents of the records, in the order in which the server gave
    /// them.
    pub fn into_values(self) -> (values: Vec<D>)
        ensures
            values@ == values_of(self.records@),
    {
        let ghost all = self.records@;
        let mut values: Vec<D> = Vec::new();
        for record in it: self.records.into_iter()
            invariant
                it.seq() == all,
                values@ == values_of(all.take(it.index() as int)),
        {
            proof {
                assert(all.take(it.index() + 1) =~= all.take(it.index() as int).push(record));
                assert(values_of(all.take(it.index() as int).push(record)) =~= values_of(
                    all.take(it.index() as int),
                ).push(record.value));
            }
            values.push(record.value);
        }
        proof {
            assert(all.take(all.len() as int) =~= all);
        }
        values
    }
}

/// The text of an optional record key.
pub open spec fn key_of(rkey: Option<&str>) -> Option<Seq<char>> {
    match rkey {
        Some(rkey) => Some(rkey@),
        None => None,
    }
}

/// The query of a call that reads records: the repository, the collection
/// and, where one is given, the record key.
pub open spec fn record_query(
    repo: Seq<char>,
    collection: Seq<char>,
    rkey: Option<Seq<char>>,
) -> Seq<(Seq<char>, Seq<char>)> {
    let query = seq![("repo"@, repo), ("collection"@, collection)];
    match rkey {
        Some(rkey) => query.push(("rkey"@, rkey)),
        None => query,
    }
}

/// The query of a call that reads records.
fn query_for(repo: &str, collection: &str, rkey: Option<&str>) -> (query: Vec<(String, String)>)
    ensures
        pairs_of(query@) == record_query(repo@, collection@, key_of(rkey)),
{
    let mut query: Vec<(String, String)> = Vec::new();
    query.push((String::from_str("repo"), String::from_str(repo)));
    query.push((String::from_str("collection"), String::from_str(collection)));
    if let Some(rkey) = rkey {
        query.push((String::from_str("rkey"), String::from_str(rkey)));
    }
    proof {
        assert(pairs_of(query@) =~= record_query(repo@, collection@, key_of(rkey)));
    }
    query
}

impl<T: Storage> Client<T> {
    /// Starts the call that reads one record of `collection` in the
    /// repository `repo`. The call ends in a `GetRecord`, whose `into_value`
    /// is the record's content. `None` where the service and the procedure
    /// make no URL.
    pub fn repo_get_record(&self, repo: &str, collection: &str, rkey: Option<&str>) -> (call:
        Option<Pending>)
        ensures
            starts(
                call,
                call_request(
                    self@,
                    Method::Get,
                    GET_RECORD@,
                    record_query(repo@, collection@, key_of(rkey)),
                    None,
                ),
            ),
    {
        self.xrpc_get(GET_RECORD, query_for(repo, collection, rkey))
    }

    /// Starts the call that lists the records of `collection` in the
    /// repository `repo`. The call ends in a `ListRecords`, whose
    /// `into_values` are the records' contents in the server's order. `None`
    /// where the service and the procedure make no URL.
    pub fn repo_list_records(&self, repo: &str, collection: &str, rkey: Option<&str>) -> (call:
        Option<Pending>)
        ensures
            starts(
                call,
                call_request(
                    self@,
                    Method::Get,
                    LIST_RECORDS@,
                    record_query(repo@, collection@, key_of(rkey)),
                    None,
                ),
            ),
    {
        self.xrpc_get(LIST_RECORDS, query_for(repo, collection, rkey))
    }
}

} // verus!
