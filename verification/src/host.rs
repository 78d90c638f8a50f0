//! The host-side collaborator surface: a status lifecycle and the
//! filesystem/terminal operations the bridge's simple message types map
//! onto. This implementation simulates the operations — it fabricates
//! results instead of touching the machine — which makes every reply
//! a pure function of its inputs. A memory-backed collaborator that
//! really stores files lives in `memhost`.

use vstd::prelude::*;

verus! {

/// The process-wide status surface: initializing until the host side is
/// wired up, then ready; an error is terminal for the session.
pub enum HostBridgeStatus {
    Initializing,
    Ready,
    Error(String),
}

/// Mathematical shape of a `HostBridgeStatus`.
pub enum StatusModel {
    Initializing,
    Ready,
    Error(Seq<char>),
}

impl View for HostBridgeStatus {
    type V = StatusModel;

    open spec fn view(&self) -> StatusModel {
        match self {
            HostBridgeStatus::Initializing => StatusModel::Initializing,
            HostBridgeStatus::Ready => StatusModel::Ready,
            HostBridgeStatus::Error(m) => StatusModel::Error(m@),
        }
    }
}

/// The host collaborator: a workspace directory and the status surface.
pub struct HostBridge {
    pub workspace_dir: String,
    pub status: HostBridgeStatus,
}

/// Whether a path stands on its own rather than inside the workspace.
pub open spec fn spec_is_absolute(p: Seq<char>) -> bool {
    p.len() > 0 && p[0] == '/'
}

impl HostBridge {
    /// A fresh collaborator over the given workspace directory.
    pub fn new(workspace_dir: String) -> (r: HostBridge)
        ensures
            r.workspace_dir@ == workspace_dir@,
            r.status@ == StatusModel::Initializing,
    {
        HostBridge { workspace_dir, status: HostBridgeStatus::Initializing }
    }

    /// Marks the collaborator ready. An error status is terminal for the
    /// session and is reported instead of being overwritten.
    pub fn initialize(&mut self) -> (r: Result<(), String>)
        ensures
            old(self).status@ is Error ==> r is Err && *final(self) == *old(self),
            !(old(self).status@ is Error) ==> r is Ok && final(self).status@ == StatusModel::Ready
                && final(self).workspace_dir == old(self).workspace_dir,
    {
        match &self.status {
            HostBridgeStatus::Error(_) => Err("host bridge is in a terminal error state".to_owned()),
            _ => {
                self.status = HostBridgeStatus::Ready;
                Ok(())
            },
        }
    }

    /// Records a session-ending failure; the first error recorded wins.
    pub fn record_error(&mut self, message: String)
        ensures
            old(self).status@ is Error ==> *final(self) == *old(self),
            !(old(self).status@ is Error) ==> final(self).status@ == StatusModel::Error(message@)
                && final(self).workspace_dir == old(self).workspace_dir,
    {
        match &self.status {
            HostBridgeStatus::Error(_) => (),
            _ => {
                self.status = HostBridgeStatus::Error(message);
            },
        }
    }

    /// The current status, by value.
    pub fn get_status(&self) -> (r: HostBridgeStatus)
        ensures
            r@ == self.status@,
    {
        match &self.status {
            HostBridgeStatus::Initializing => HostBridgeStatus::Initializing,
            HostBridgeStatus::Ready => HostBridgeStatus::Ready,
            HostBridgeStatus::Error(m) => HostBridgeStatus::Error(m.clone()),
        }
    }

    /// Replaces the workspace directory; never fails.
    pub fn set_workspace_dir(&mut self, path: String) -> (r: Result<(), String>)
        ensures
            r is Ok,
            final(self).workspace_dir@ == path@,
            final(self).status == old(self).status,
    {
        self.workspace_dir = path;
        Ok(())
    }

    /// The current workspace directory.
    pub fn get_workspace_dir(&self) -> (r: &String)
        ensures
            r@ == self.workspace_dir@,
    {
        &self.workspace_dir
    }

    /// Simulated read: fabricates a marker string naming the path.
    pub fn read_file(&self, path: &String) -> (r: Result<String, String>)
        ensures
            r matches Ok(c) && c@ == "simulated content of "@ + path@,
    {
        Ok(String::from_str("simulated content of ").concat(path.as_str()))
    }

    /// Simulated write: accepts any path and content.
    pub fn write_file(&self, path: &String, content: &String) -> (r: Result<(), String>)
        ensures
            r is Ok,
    {
        Ok(())
    }

    /// Simulated listing: three fixed entries under the given path.
    pub fn list_directory(&self, path: &String) -> (r: Result<Vec<String>, String>)
        ensures
            r matches Ok(v) && v.deep_view() =~= seq![
                path@ + "/mock-file-1.txt"@,
                path@ + "/mock-file-2.js"@,
                path@ + "/mock-dir"@,
            ],
    {
        let mut out: Vec<String> = Vec::new();
        out.push(path.clone().concat("/mock-file-1.txt"));
        out.push(path.clone().concat("/mock-file-2.js"));
        out.push(path.clone().concat("/mock-dir"));
        Ok(out)
    }

    /// Simulated probe: every file is reported present.
    pub fn file_exists(&self, path: &String) -> (r: bool)
        ensures
            r,
    {
        true
    }

    /// Simulated probe: every directory is reported present.
    pub fn directory_exists(&self, path: &String) -> (r: bool)
        ensures
            r,
    {
        true
    }

    /// Simulated terminal: fabricates an output naming the command.
    pub fn execute_command(&self, command: &String, cwd: Option<&String>) -> (r: Result<
        String,
        String,
    >)
        ensures
            r matches Ok(out) && out@ == "simulated output of '"@ + command@
                + "'\ncompleted successfully"@,
    {
        Ok(
            String::from_str("simulated output of '").concat(command.as_str()).concat(
                "'\ncompleted successfully",
            ),
        )
    }

    /// Simulated message display: always succeeds.
    pub fn show_message(&self, message: &String, message_type: &String) -> (r: Result<(), String>)
        ensures
            r is Ok,
    {
        Ok(())
    }

    /// Simulated diff display: a fixed diff identifier.
    pub fn show_diff(&self, original: &String, modified: &String, title: &String) -> (r: Result<
        String,
        String,
    >)
        ensures
            r matches Ok(d) && d@ == "simulated-diff-id-12345"@,
    {
        Ok("simulated-diff-id-12345".to_owned())
    }

    /// A path on its own if absolute, otherwise inside the workspace.
    pub fn resolve_path(&self, path: &String) -> (r: String)
        ensures
            spec_is_absolute(path@) ==> r@ == path@,
            !spec_is_absolute(path@) ==> r@ == self.workspace_dir@ + "/"@ + path@,
    {
        let s = path.as_str();
        if s.unicode_len() > 0 && s.get_char(0) == '/' {
            path.clone()
        } else {
            self.workspace_dir.clone().concat("/").concat(path.as_str())
        }
    }
}

} // verus!
