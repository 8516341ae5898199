//! What happens to a finished result file: nothing, or an upload to a
//! collection endpoint.

use vstd::prelude::*;

verus! {

/// Takes care of one result file, named by its path.
pub trait ResultHandler {
    fn handle_result(&self, path: &str);
}

/// Discards results: used when no collection endpoint is configured.
pub struct ResultIgnorer {}

impl ResultIgnorer {
    pub fn new() -> ResultIgnorer {
        ResultIgnorer {  }
    }
}

impl ResultHandler for ResultIgnorer {
    fn handle_result(&self, _path: &str) {
    }
}

/// Uploads each result file to a fixed endpoint.
pub struct ResultsUploader {
    push_url: String,
}

impl ResultsUploader {
    /// The endpoint files are pushed to.
    pub closed spec fn url(self) -> Seq<char> {
        self.push_url@
    }

    pub fn new(url: String) -> (r: ResultsUploader)
        ensures
            r.url() == url@,
    {
        ResultsUploader { push_url: url }
    }
}

/// Relies on subprocess::Exec (cmd, arg, join): runs `curl <url> -T <path>`,
/// which uploads the file to the endpoint; reports whether curl ran and
/// exited successfully.
#[verifier::external_body]
fn curl_upload(url: &str, path: &str) -> bool {
    match subprocess::Exec::cmd("curl").arg(url).arg("-T").arg(path).join() {
        Ok(status) => status.success(),
        Err(_) => false,
    }
}

impl ResultHandler for ResultsUploader {
    fn handle_result(&self, path: &str) {
        let _ = curl_upload(self.push_url.as_str(), path);
    }
}

} // verus!
