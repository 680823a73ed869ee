use vstd::prelude::*;
use vstd::string::*;
use crate::util::Text;

verus! {

/// The complaint about a store without an id.
pub const EMPTY_ID: &'static str = "aws-pass id must be non-empty";

/// The complaint about a store that has an id already.
pub const ALREADY_INITIALIZED: &'static str = "aws-pass store already initialized, not overwriting";

/// The command that sets up a store under an id, with the long-lived
/// credentials of its user.
#[derive(Debug)]
pub struct Init {
    pub id: String,
    pub aws_access_key_id: String,
    pub aws_secret_access_key: String,
}

/// The contents of the two files that `Init` writes.
#[derive(Debug)]
pub struct InitFiles {
    pub id: String,
    pub credentials: String,
}

/// The credentials file: the key id on one line and the secret key on the
/// next.
pub open spec fn credentials_text(access_key_id: Text, secret_access_key: Text) -> Text {
    ("aws_access_key_id="@ + access_key_id + "\n"@) + ("aws_secret_access_key="@
        + secret_access_key + "\n"@)
}

impl Init {
    /// Whether the command can go on to look at the store: the id must
    /// not be empty.
    pub fn check(&self) -> (r: Result<(), String>)
        ensures
            self.id@.len() > 0 ==> r is Ok,
            self.id@.len() == 0 ==> (r matches Err(complaint) && complaint@ == EMPTY_ID@),
    {
        if self.id.as_str().unicode_len() == 0 {
            Err(EMPTY_ID.to_string())
        } else {
            Ok(())
        }
    }

    /// What the command writes: the id into the id file, and the
    /// credentials into the credentials file. It writes nothing when the
    /// id is empty, nor when the id file exists already.
    pub fn run(self, id_file_exists: bool) -> (r: Result<InitFiles, String>)
        ensures
            self.id@.len() == 0 ==> (r matches Err(complaint) && complaint@ == EMPTY_ID@),
            self.id@.len() > 0 && id_file_exists ==> (r matches Err(complaint) && complaint@
                == ALREADY_INITIALIZED@),
            self.id@.len() > 0 && !id_file_exists ==> (r matches Ok(files) && files.id@ == self.id@
                && files.credentials@ == credentials_text(
                self.aws_access_key_id@,
                self.aws_secret_access_key@,
            )),
    {
        match self.check() {
            Err(complaint) => {
                return Err(complaint);
            },
            Ok(_) => {},
        }
        if id_file_exists {
            return Err(ALREADY_INITIALIZED.to_string());
        }
        let mut credentials = String::new();
        credentials.append("aws_access_key_id=");
        credentials.append(self.aws_access_key_id.as_str());
        credentials.append("\n");
        credentials.append("aws_secret_access_key=");
        credentials.append(self.aws_secret_access_key.as_str());
        credentials.append("\n");
        assert(credentials@ =~= credentials_text(
            self.aws_access_key_id@,
            self.aws_secret_access_key@,
        ));
        Ok(InitFiles { id: self.id, credentials })
    }
}

} // verus!
