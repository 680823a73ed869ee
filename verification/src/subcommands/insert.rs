use vstd::prelude::*;
use vstd::string::*;
use crate::client::sm::default_sm_client::{WireSecret, WireSecretView};
use crate::client::sm::sm_client::{Filter, FilterView, SmRequest, SmRequestView};
use crate::util::{is_line_end, Text};

verus! {

/// The complaint about a password without a name.
pub const EMPTY_NAME: &'static str = "name must be non-empty";

/// The complaint about a store without an id file.
pub const NO_ID_FILE: &'static str = "No id file";

/// The complaint about an id file without an id.
pub const EMPTY_STORE_ID: &'static str = "id must be non-empty";

/// The complaint about a name that is taken.
pub const NAME_TAKEN: &'static str = "Secret with provided name already exists";

/// The command that inserts a password under a name that no secret of
/// the store has yet.
#[derive(Debug)]
pub struct Insert {
    pub name: String,
}

/// The first line of a text with its line feed, if it has one: what a
/// reader takes in when it reads one line.
pub open spec fn line_read(contents: Text) -> Text {
    let end = choose|i: int| is_line_end(contents, i);
    if end < contents.len() {
        contents.subrange(0, end + 1)
    } else {
        contents
    }
}

/// The filters that keep the secrets of the store `id` that are called
/// `name`.
pub open spec fn insert_filters(id: Text, name: Text) -> Seq<FilterView> {
    seq![("aws-pass-id"@, seq![id]), ("aws-pass-name"@, seq![name])]
}

/// Whether one of the secrets listed is called `name`.
pub open spec fn is_taken(name: Text, entries: Seq<WireSecretView>) -> bool {
    exists|i: int| 0 <= i < entries.len() && (#[trigger] entries[i]).name == Some(name)
}

/// Reads one line of a text, as `line_read` says.
fn read_line(contents: &str) -> (r: String)
    ensures
        r@ == line_read(contents@),
{
    let len: usize = contents.unicode_len();
    let mut end: usize = 0;
    while end < len && contents.get_char(end) != '\n'
        invariant
            len == contents@.len(),
            end <= len,
            forall|j: int| 0 <= j < end ==> contents@[j] != '\n',
        decreases len - end,
    {
        end += 1;
    }
    proof {
        assert(is_line_end(contents@, end as int));
        assert forall|k: int| is_line_end(contents@, k) implies k == end by {
            if k < end {
                assert(contents@[k] == '\n');
            } else if k > end {
                assert(contents@[end as int] != '\n');
            }
        }
        assert(contents@.subrange(0, len as int) =~= contents@);
    }
    if end < len {
        contents.substring_char(0, end + 1).to_string()
    } else {
        contents.substring_char(0, len).to_string()
    }
}

impl Insert {
    /// Whether the command can go on to look at the store: the name must
    /// not be empty.
    pub fn named(&self) -> (r: Result<(), String>)
        ensures
            self.name@.len() > 0 ==> r is Ok,
            self.name@.len() == 0 ==> (r matches Err(complaint) && complaint@ == EMPTY_NAME@),
    {
        if self.name.as_str().unicode_len() == 0 {
            Err(EMPTY_NAME.to_string())
        } else {
            Ok(())
        }
    }

    /// The listing that looks for secrets of the store under the name.
    /// `id_file` is the contents of the id file of the store, none when
    /// there is no such file; the id is its first line as it was read. The
    /// command complains about an empty name, a missing id file and an
    /// empty id, in this order.
    pub fn run(&self, id_file: Option<&str>) -> (r: Result<SmRequest, String>)
        ensures
            self.name@.len() == 0 ==> (r matches Err(complaint) && complaint@ == EMPTY_NAME@),
            self.name@.len() > 0 && id_file is None ==> (r matches Err(complaint) && complaint@
                == NO_ID_FILE@),
            self.name@.len() > 0 && id_file is Some && id_file->0@.len() == 0 ==> (r matches Err(
                complaint,
            ) && complaint@ == EMPTY_STORE_ID@),
            self.name@.len() > 0 && id_file is Some && id_file->0@.len() > 0 ==> (r matches Ok(
                request,
            ) && request.deep_view() == (SmRequestView::ListSecrets {
                filters: Some(insert_filters(line_read(id_file->0@), self.name@)),
                next_token: None,
            })),
    {
        match self.named() {
            Err(complaint) => {
                return Err(complaint);
            },
            Ok(_) => {},
        }
        let contents = match id_file {
            Some(contents) => contents,
            None => {
                return Err(NO_ID_FILE.to_string());
            },
        };
        if contents.unicode_len() == 0 {
            return Err(EMPTY_STORE_ID.to_string());
        }
        let id = read_line(contents);
        let mut ids: Vec<String> = Vec::new();
        ids.push(id);
        let mut names: Vec<String> = Vec::new();
        names.push(self.name.clone());
        let mut filters: Vec<Filter> = Vec::new();
        filters.push(("aws-pass-id".to_string(), ids));
        filters.push(("aws-pass-name".to_string(), names));
        assert(filters[0].deep_view().1 =~= seq![line_read(contents@)]);
        assert(filters[1].deep_view().1 =~= seq![self.name@]);
        assert(filters.deep_view() =~= insert_filters(line_read(contents@), self.name@));
        Ok(SmRequest::ListSecrets { filters: Some(filters), next_token: None })
    }

    /// Whether the name is free among the secrets listed: it is taken as
    /// soon as one of them has it.
    pub fn check(&self, entries: &[WireSecret]) -> (r: Result<(), String>)
        ensures
            !is_taken(self.name@, entries.deep_view()) ==> r is Ok,
            is_taken(self.name@, entries.deep_view()) ==> (r matches Err(complaint) && complaint@
                == NAME_TAKEN@),
    {
        let mut i: usize = 0;
        while i < entries.len()
            invariant
                i <= entries.len(),
                forall|j: int|
                    0 <= j < i ==> (#[trigger] entries.deep_view()[j]).name != Some(self.name@),
            decreases entries.len() - i,
        {
            match &entries[i].name {
                Some(name) => {
                    if *name == self.name {
                        assert(entries.deep_view()[i as int].name == Some(self.name@));
                        return Err(NAME_TAKEN.to_string());
                    }
                },
                None => {},
            }
            i += 1;
        }
        Ok(())
    }
}

} // verus!
