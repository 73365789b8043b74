use vstd::prelude::*;

verus! {

/// The shape of the JSON body a caller may post to have stored.
pub struct Input {
    /// The payload the caller wants persisted.
    pub content: String,
}

/// The shape of one persisted record, and of each element of the JSON the
/// download handler returns.
pub struct Record {
    /// The payload as it was uploaded.
    pub content: String,
}

/// The record the upload handler persists for an accepted body.
pub open spec fn stored_spec(input: Input) -> Record {
    Record { content: input.content }
}

/// Build the record to persist for an uploaded body: the content is carried
/// over unchanged. Parsing the body and writing the file are the
/// surrounding server's I/O.
pub fn store_record(input: Input) -> (r: Record)
    ensures
        r == stored_spec(input),
{
    Record { content: input.content }
}

/// The contents of a list of records, in order.
pub open spec fn contents_of(records: Seq<Record>) -> Seq<Seq<char>> {
    records.map_values(|r: Record| r.content@)
}

/// What the download handler renders from the records read back: each
/// record's content, in file order. Reading the file is the surrounding
/// server's I/O.
pub fn download_contents(records: &Vec<Record>) -> (out: Vec<String>)
    ensures
        out@.map_values(|s: String| s@) == contents_of(records@),
{
    let mut out: Vec<String> = Vec::new();
    let mut i: usize = 0;
    while i < records.len()
        invariant
            i <= records@.len(),
            out@.len() == i,
            forall|j: int| 0 <= j < i ==> out@[j] == records@[j].content,
        decreases records@.len() - i,
    {
        out.push(records[i].content.clone());
        i = i + 1;
    }
    proof {
        assert(out@.map_values(|s: String| s@) =~= contents_of(records@));
    }
    out
}

/// Law: the upload/download round trip preserves content — a file holding
/// exactly the record stored for a body reads back as exactly that body's
/// content.
pub proof fn lemma_upload_download_round_trip(input: Input)
    ensures
        contents_of(seq![stored_spec(input)]) =~= seq![input.content@],
{
    assert(contents_of(seq![stored_spec(input)]).len() == 1);
    assert(contents_of(seq![stored_spec(input)])[0] == input.content@);
}

} // verus!
