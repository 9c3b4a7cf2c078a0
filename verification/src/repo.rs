//! The repo: the directory where this device keeps its keys and its state.
use vstd::prelude::*;

use crate::numbers;
use crate::text;

verus! {

/// What is said where the directory is not known.
pub const MISSING_CONNECT_DIR_MSG: &'static str = "error: DATUM_CONNECT_DIR is not set

The datum-connect binary expects this variable to point to its state
directory (where it stores the iroh listen_key, config, and per-project
state). It is normally set by the datumctl plugin host.

To run via datumctl (preferred):
  datumctl connect tunnel <subcommand> ...

To run datum-connect directly (development):
  export DATUM_CONNECT_DIR=\"$HOME/.datumctl/connect\"
  datum-connect <subcommand> ...

(exit 64)
";

/// The directory is not known.
#[derive(Debug, Clone, Copy, PartialEq, Eq, Structural)]
pub struct MissingConnectDir;

impl MissingConnectDir {
    /// What is said about it.
    pub fn message(&self) -> (r: String)
        ensures
            r@ == MISSING_CONNECT_DIR_MSG@,
    {
        MISSING_CONNECT_DIR_MSG.to_owned()
    }
}

pub const CONFIG_FILE: &'static str = "config.yml";

pub const CONNECT_KEY_FILE: &'static str = "connect_key";

pub const LISTEN_KEY_FILE: &'static str = "listen_key";

pub const STATE_FILE: &'static str = "state.yml";

/// How many bytes a key has.
pub const KEY_LEN: usize = 32;

/// The directory where this device keeps its keys and its state.
#[derive(Debug, Clone, PartialEq, Eq)]
pub struct Repo(pub String);

impl Repo {
    /// The repo in this directory, which need not exist.
    pub fn from_path(path: String) -> (r: Self)
        ensures
            r.0@ == path@,
    {
        Repo(path)
    }

    /// The directory of the repo.
    pub fn path(&self) -> (r: &str)
        ensures
            r@ == self.0@,
    {
        self.0.as_str()
    }

    /// The directory that the environment names, by the value of
    /// `DATUM_CONNECT_DIR`; an empty one counts as none.
    pub fn default_location(variable: Option<String>) -> (r: Result<String, MissingConnectDir>)
        ensures
            match (r, variable) {
                (Ok(path), Some(value)) => path@ == value@ && value@.len() > 0,
                (Err(_), Some(value)) => value@.len() == 0,
                (Err(_), None) => true,
                _ => false,
            },
    {
        match variable {
            Some(value) => if value.as_str().is_empty() {
                Err(MissingConnectDir)
            } else {
                Ok(value)
            },
            None => Err(MissingConnectDir),
        }
    }
}

// ---------------------------------------------------------------------------
// File names
// ---------------------------------------------------------------------------
/// The name of the file for a key that is made at the time `now`, which is
/// written in digits.
pub open spec fn dated_key_name(project: Option<Seq<char>>, now: Seq<char>) -> Seq<char> {
    match project {
        Some(project) => LISTEN_KEY_FILE@ + "."@ + project + "."@ + now,
        None => LISTEN_KEY_FILE@ + "."@ + now,
    }
}

/// The name of the file for a key that is made at the time `now`.
pub fn listen_key_name(project: &Option<String>, now: &str) -> (r: String)
    ensures
        r@ == dated_key_name(project.deep_view(), now@),
{
    let mut out = text::concat2(LISTEN_KEY_FILE, ".");
    match project {
        Some(project) => {
            out.append(project);
            out.append(".");
        },
        None => {},
    }
    out.append(now);
    out
}

/// A number with its sign.
pub open spec fn signed_decimal(n: int) -> Seq<char> {
    if n < 0 {
        "-"@ + numbers::decimal((-n) as nat)
    } else {
        numbers::decimal(n as nat)
    }
}

/// The name of the file that a key is first written to: beside its own, with the
/// number of the process and the time.
pub open spec fn temporary_name(file_name: Seq<char>, process: u32, nanos: i64) -> Seq<char> {
    file_name + "."@ + numbers::decimal(process as nat) + "."@ + signed_decimal(nanos as int)
        + ".tmp"@
}

fn signed_text(n: i64) -> (r: String)
    ensures
        r@ == signed_decimal(n as int),
{
    if n < 0 {
        let size: u64 = if n == i64::MIN {
            0x8000_0000_0000_0000
        } else {
            (-n) as u64
        };
        text::concat2("-", &numbers::decimal_text(size))
    } else {
        numbers::decimal_text(n as u64)
    }
}

/// The name of the file that a key is first written to.
pub fn temporary_key_name(file_name: &str, process: u32, nanos: i64) -> (r: String)
    ensures
        r@ == temporary_name(file_name@, process, nanos),
{
    let mut out = text::concat3(file_name, ".", &numbers::decimal_text(process as u64));
    out.append(".");
    out.append(&signed_text(nanos));
    out.append(".tmp");
    out
}

// ---------------------------------------------------------------------------
// Keys
// ---------------------------------------------------------------------------
/// Whose key it is.
#[derive(Debug, Clone, PartialEq, Eq)]
pub enum KeyScope {
    /// The key that this device connects with.
    Connect,
    /// The key that this device serves a project with.
    Project { project: String },
    /// The key that this device serves one tunnel with.
    Tunnel { project: String, tunnel: String },
}

/// The model of a [`KeyScope`].
#[verifier::ext_equal]
pub enum KeyScopeModel {
    Connect,
    Project { project: Seq<char> },
    Tunnel { project: Seq<char>, tunnel: Seq<char> },
}

impl DeepView for KeyScope {
    type V = KeyScopeModel;

    open spec fn deep_view(&self) -> KeyScopeModel {
        match self {
            KeyScope::Connect => KeyScopeModel::Connect,
            KeyScope::Project { project } => KeyScopeModel::Project {
                project: project.deep_view(),
            },
            KeyScope::Tunnel { project, tunnel } => KeyScopeModel::Tunnel {
                project: project.deep_view(),
                tunnel: tunnel.deep_view(),
            },
        }
    }
}

/// How far looking a key up is: what it waits for.
#[derive(Debug, Clone, PartialEq, Eq)]
pub enum KeyLookup {
    /// Whether the key is in its place.
    CheckingOwn,
    /// Whether there is a key in the old place.
    CheckingLegacy,
    /// That the old key is in the new place.
    Moving,
    /// The bytes of the key.
    Reading,
    /// The bytes of a new key.
    Creating,
}

/// The model of a [`KeyLookup`].
#[verifier::ext_equal]
pub enum KeyLookupModel {
    CheckingOwn,
    CheckingLegacy,
    Moving,
    Reading,
    Creating,
}

impl DeepView for KeyLookup {
    type V = KeyLookupModel;

    open spec fn deep_view(&self) -> KeyLookupModel {
        match self {
            KeyLookup::CheckingOwn => KeyLookupModel::CheckingOwn,
            KeyLookup::CheckingLegacy => KeyLookupModel::CheckingLegacy,
            KeyLookup::Moving => KeyLookupModel::Moving,
            KeyLookup::Reading => KeyLookupModel::Reading,
            KeyLookup::Creating => KeyLookupModel::Creating,
        }
    }
}

/// What is done next, with paths from the root of the repo.
#[derive(Debug, Clone, PartialEq, Eq)]
pub enum KeyAction {
    /// Looks whether there is a file.
    Exists { path: Vec<String> },
    /// Makes the directory of a file and moves another there.
    Move { from: Vec<String>, to: Vec<String> },
    /// Reads a file.
    Read { path: Vec<String> },
    /// Makes the directory of a file and writes a new key there.
    Create { path: Vec<String> },
}

/// The model of a [`KeyAction`].
#[verifier::ext_equal]
pub enum KeyActionModel {
    Exists { path: Seq<Seq<char>> },
    Move { from: Seq<Seq<char>>, to: Seq<Seq<char>> },
    Read { path: Seq<Seq<char>> },
    Create { path: Seq<Seq<char>> },
}

impl DeepView for KeyAction {
    type V = KeyActionModel;

    open spec fn deep_view(&self) -> KeyActionModel {
        match self {
            KeyAction::Exists { path } => KeyActionModel::Exists {
                path: path.deep_view(),
            },
            KeyAction::Move { from, to } => KeyActionModel::Move {
                from: from.deep_view(),
                to: to.deep_view(),
            },
            KeyAction::Read { path } => KeyActionModel::Read {
                path: path.deep_view(),
            },
            KeyAction::Create { path } => KeyActionModel::Create {
                path: path.deep_view(),
            },
        }
    }
}

/// What comes back.
#[derive(Debug, Clone, PartialEq, Eq)]
pub enum KeyReply {
    /// Whether there is such a file.
    Exists { found: bool },
    /// The file was moved.
    Moved,
    /// The bytes of the file that was read or written.
    Bytes { bytes: Vec<u8> },
    /// What was asked for failed.
    Failed { message: String },
}

/// The model of a [`KeyReply`].
#[verifier::ext_equal]
pub enum KeyReplyModel {
    Exists { found: bool },
    Moved,
    Bytes { bytes: Seq<u8> },
    Failed { message: Seq<char> },
}

impl DeepView for KeyReply {
    type V = KeyReplyModel;

    open spec fn deep_view(&self) -> KeyReplyModel {
        match self {
            KeyReply::Exists { found } => KeyReplyModel::Exists {
                found: *found,
            },
            KeyReply::Moved => KeyReplyModel::Moved,
            KeyReply::Bytes { bytes } => KeyReplyModel::Bytes {
                bytes: bytes@,
            },
            KeyReply::Failed { message } => KeyReplyModel::Failed {
                message: message.deep_view(),
            },
        }
    }
}

/// What comes of a reply.
#[derive(Debug, Clone, PartialEq, Eq)]
pub enum KeyStep {
    /// The lookup goes on.
    Next { state: KeyLookup, action: KeyAction },
    /// The key.
    Found { key: Vec<u8> },
    /// There is no key.
    Missing,
    /// The lookup has failed.
    Failed { message: String },
}

/// The model of a [`KeyStep`].
#[verifier::ext_equal]
pub enum KeyStepModel {
    Next { state: KeyLookupModel, action: KeyActionModel },
    Found { key: Seq<u8> },
    Missing,
    Failed { message: Seq<char> },
}

impl DeepView for KeyStep {
    type V = KeyStepModel;

    open spec fn deep_view(&self) -> KeyStepModel {
        match self {
            KeyStep::Next { state, action } => KeyStepModel::Next {
                state: state.deep_view(),
                action: action.deep_view(),
            },
            KeyStep::Found { key } => KeyStepModel::Found {
                key: key@,
            },
            KeyStep::Missing => KeyStepModel::Missing,
            KeyStep::Failed { message } => KeyStepModel::Failed {
                message: message.deep_view(),
            },
        }
    }
}

/// The place of a key, from the root of the repo.
pub open spec fn key_path(scope: KeyScopeModel) -> Seq<Seq<char>> {
    match scope {
        KeyScopeModel::Connect => seq![CONNECT_KEY_FILE@],
        KeyScopeModel::Project { project } => seq![project, LISTEN_KEY_FILE@],
        KeyScopeModel::Tunnel { project, tunnel } => seq![project, tunnel, LISTEN_KEY_FILE@],
    }
}

/// The old place of a key, which every project shared.
pub open spec fn legacy_path() -> Seq<Seq<char>> {
    seq![LISTEN_KEY_FILE@]
}

/// The step with the bytes of a key, which must have the right length.
pub open spec fn key_from(bytes: Seq<u8>) -> KeyStepModel {
    if bytes.len() == KEY_LEN {
        KeyStepModel::Found { key: bytes }
    } else {
        KeyStepModel::Failed { message: "could not convert slice to array"@ }
    }
}

/// The step that reads the key in its place.
pub open spec fn read_own(scope: KeyScopeModel) -> KeyStepModel {
    KeyStepModel::Next {
        state: KeyLookupModel::Reading,
        action: KeyActionModel::Read { path: key_path(scope) },
    }
}

/// The step that makes a new key, or finds none: only a tunnel's key is never
/// made up.
pub open spec fn make_own(scope: KeyScopeModel) -> KeyStepModel {
    if scope is Tunnel {
        KeyStepModel::Missing
    } else {
        KeyStepModel::Next {
            state: KeyLookupModel::Creating,
            action: KeyActionModel::Create { path: key_path(scope) },
        }
    }
}

/// What the lookup of a key does when a reply comes.
///
/// A key in its place is read. Otherwise a key in the old place is moved there,
/// so that whoever asks first keeps the identity; else a new one is made, but
/// for a tunnel.
pub open spec fn key_step(
    state: KeyLookupModel,
    scope: KeyScopeModel,
    reply: KeyReplyModel,
) -> KeyStepModel {
    match (state, reply) {
        (KeyLookupModel::CheckingOwn, KeyReplyModel::Exists { found }) => if found {
            read_own(scope)
        } else if scope is Connect {
            make_own(scope)
        } else {
            KeyStepModel::Next {
                state: KeyLookupModel::CheckingLegacy,
                action: KeyActionModel::Exists { path: legacy_path() },
            }
        },
        (KeyLookupModel::CheckingLegacy, KeyReplyModel::Exists { found }) => if found {
            KeyStepModel::Next {
                state: KeyLookupModel::Moving,
                action: KeyActionModel::Move { from: legacy_path(), to: key_path(scope) },
            }
        } else {
            make_own(scope)
        },
        (KeyLookupModel::Moving, KeyReplyModel::Moved) => read_own(scope),
        (KeyLookupModel::Reading, KeyReplyModel::Bytes { bytes }) => key_from(bytes),
        (KeyLookupModel::Creating, KeyReplyModel::Bytes { bytes }) => key_from(bytes),
        (_, KeyReplyModel::Failed { message }) => KeyStepModel::Failed { message },
        _ => KeyStepModel::Failed { message: "unexpected reply"@ },
    }
}

impl KeyScope {
    /// The place of the key, from the root of the repo.
    pub fn path(&self) -> (r: Vec<String>)
        ensures
            r.deep_view() == key_path(self.deep_view()),
    {
        let mut out: Vec<String> = Vec::new();
        match self {
            KeyScope::Connect => {
                out.push(CONNECT_KEY_FILE.to_owned());
            },
            KeyScope::Project { project } => {
                out.push(project.clone());
                out.push(LISTEN_KEY_FILE.to_owned());
            },
            KeyScope::Tunnel { project, tunnel } => {
                out.push(project.clone());
                out.push(tunnel.clone());
                out.push(LISTEN_KEY_FILE.to_owned());
            },
        }
        assert(out.deep_view() =~= key_path(self.deep_view()));
        out
    }

    /// The first thing that a lookup does.
    pub fn start(&self) -> (r: (KeyLookup, KeyAction))
        ensures
            r.0.deep_view() == KeyLookupModel::CheckingOwn,
            r.1.deep_view() == (KeyActionModel::Exists { path: key_path(self.deep_view()) }),
    {
        (KeyLookup::CheckingOwn, KeyAction::Exists { path: self.path() })
    }

    fn read(&self) -> (r: KeyStep)
        ensures
            r.deep_view() == read_own(self.deep_view()),
    {
        KeyStep::Next { state: KeyLookup::Reading, action: KeyAction::Read { path: self.path() } }
    }

    fn make(&self) -> (r: KeyStep)
        ensures
            r.deep_view() == make_own(self.deep_view()),
    {
        match self {
            KeyScope::Tunnel { .. } => KeyStep::Missing,
            _ => KeyStep::Next {
                state: KeyLookup::Creating,
                action: KeyAction::Create { path: self.path() },
            },
        }
    }
}

fn old_place() -> (r: Vec<String>)
    ensures
        r.deep_view() == legacy_path(),
{
    let mut out: Vec<String> = Vec::new();
    out.push(LISTEN_KEY_FILE.to_owned());
    assert(out.deep_view() =~= legacy_path());
    out
}

fn check_key(bytes: Vec<u8>) -> (r: KeyStep)
    ensures
        r.deep_view() == key_from(bytes@),
{
    if bytes.len() == KEY_LEN {
        KeyStep::Found { key: bytes }
    } else {
        KeyStep::Failed { message: "could not convert slice to array".to_owned() }
    }
}

impl KeyLookup {
    /// Goes on with a lookup when a reply comes.
    pub fn step(self, scope: &KeyScope, reply: KeyReply) -> (r: KeyStep)
        ensures
            r.deep_view() == key_step(self.deep_view(), scope.deep_view(), reply.deep_view()),
    {
        match (self, reply) {
            (KeyLookup::CheckingOwn, KeyReply::Exists { found }) => {
                if found {
                    return scope.read();
                }
                match scope {
                    KeyScope::Connect => scope.make(),
                    _ => KeyStep::Next {
                        state: KeyLookup::CheckingLegacy,
                        action: KeyAction::Exists { path: old_place() },
                    },
                }
            },
            (KeyLookup::CheckingLegacy, KeyReply::Exists { found }) => {
                if found {
                    KeyStep::Next {
                        state: KeyLookup::Moving,
                        action: KeyAction::Move { from: old_place(), to: scope.path() },
                    }
                } else {
                    scope.make()
                }
            },
            (KeyLookup::Moving, KeyReply::Moved) => scope.read(),
            (KeyLookup::Reading, KeyReply::Bytes { bytes }) => check_key(bytes),
            (KeyLookup::Creating, KeyReply::Bytes { bytes }) => check_key(bytes),
            (_, KeyReply::Failed { message }) => KeyStep::Failed { message },
            _ => KeyStep::Failed { message: "unexpected reply".to_owned() },
        }
    }
}

// ---------------------------------------------------------------------------
// Writing a key
// ---------------------------------------------------------------------------
/// The place beside `path` that a key is first written to.
pub open spec fn place_beside(path: Seq<Seq<char>>, process: u32, nanos: i64) -> Seq<Seq<char>> {
    path.drop_last().push(temporary_name(path.last(), process, nanos))
}

/// The place beside `path` that a key is first written to.
pub fn temporary_path(path: &Vec<String>, process: u32, nanos: i64) -> (r: Result<
    Vec<String>,
    String,
>)
    ensures
        match r {
            Ok(temporary) => path@.len() > 0 && temporary.deep_view() == place_beside(
                path.deep_view(),
                process,
                nanos,
            ),
            Err(message) => path@.len() == 0 && message@ == "secret key path has no file name"@,
        },
{
    let n: usize = path.len();
    if n == 0 {
        return Err("secret key path has no file name".to_owned());
    }
    let mut out: Vec<String> = text::copy_texts(path);
    assert(out.deep_view().len() == n);
    let name = temporary_key_name(&path[n - 1], process, nanos);
    out.set(n - 1, name);
    assert(out.deep_view() =~= place_beside(path.deep_view(), process, nanos));
    Ok(out)
}

/// The place beside a key is in the same directory, and is not the key's own.
pub proof fn temporary_place_is_another(path: Seq<Seq<char>>, process: u32, nanos: i64)
    requires
        path.len() > 0,
    ensures
        place_beside(path, process, nanos).drop_last() == path.drop_last(),
        place_beside(path, process, nanos) != path,
{
    let beside = place_beside(path, process, nanos);
    assert(beside.drop_last() =~= path.drop_last());
    reveal_strlit(".");
    assert(beside.last().len() > path.last().len());
}

/// A key that is to be written.
#[derive(Debug, Clone, PartialEq, Eq)]
pub struct KeyFile {
    /// Its place.
    pub path: Vec<String>,
    /// The place beside it.
    pub temporary: Vec<String>,
    /// Its bytes.
    pub key: Vec<u8>,
}

/// The model of a [`KeyFile`].
#[verifier::ext_equal]
pub struct KeyFileModel {
    pub path: Seq<Seq<char>>,
    pub temporary: Seq<Seq<char>>,
    pub key: Seq<u8>,
}

impl DeepView for KeyFile {
    type V = KeyFileModel;

    open spec fn deep_view(&self) -> KeyFileModel {
        KeyFileModel {
            path: self.path.deep_view(),
            temporary: self.temporary.deep_view(),
            key: self.key@,
        }
    }
}

/// How far writing a key is: what it waits for.
#[derive(Debug, Clone, PartialEq, Eq)]
pub enum KeyWrite {
    /// That there is a new file beside the place.
    Opening,
    /// That the bytes are in it.
    Writing,
    /// That they are on the disk.
    Syncing,
    /// That the file is in its place.
    Renaming,
    /// That the file beside the place is gone, since something failed.
    CleaningUp { message: String },
}

/// The model of a [`KeyWrite`].
#[verifier::ext_equal]
pub enum KeyWriteModel {
    Opening,
    Writing,
    Syncing,
    Renaming,
    CleaningUp { message: Seq<char> },
}

impl DeepView for KeyWrite {
    type V = KeyWriteModel;

    open spec fn deep_view(&self) -> KeyWriteModel {
        match self {
            KeyWrite::Opening => KeyWriteModel::Opening,
            KeyWrite::Writing => KeyWriteModel::Writing,
            KeyWrite::Syncing => KeyWriteModel::Syncing,
            KeyWrite::Renaming => KeyWriteModel::Renaming,
            KeyWrite::CleaningUp { message } => KeyWriteModel::CleaningUp {
                message: message.deep_view(),
            },
        }
    }
}

/// What is done next.
#[derive(Debug, Clone, PartialEq, Eq)]
pub enum WriteAction {
    /// Makes a new file that only the user can read.
    Open { path: Vec<String> },
    /// Writes the bytes to it.
    Write { bytes: Vec<u8> },
    /// Waits until they are on the disk.
    Sync,
    /// Moves a file over another.
    Rename { from: Vec<String>, to: Vec<String> },
    /// Removes a file.
    Remove { path: Vec<String> },
}

/// The model of a [`WriteAction`].
#[verifier::ext_equal]
pub enum WriteActionModel {
    Open { path: Seq<Seq<char>> },
    Write { bytes: Seq<u8> },
    Sync,
    Rename { from: Seq<Seq<char>>, to: Seq<Seq<char>> },
    Remove { path: Seq<Seq<char>> },
}

impl DeepView for WriteAction {
    type V = WriteActionModel;

    open spec fn deep_view(&self) -> WriteActionModel {
        match self {
            WriteAction::Open { path } => WriteActionModel::Open {
                path: path.deep_view(),
            },
            WriteAction::Write { bytes } => WriteActionModel::Write {
                bytes: bytes@,
            },
            WriteAction::Sync => WriteActionModel::Sync,
            WriteAction::Rename { from, to } => WriteActionModel::Rename {
                from: from.deep_view(),
                to: to.deep_view(),
            },
            WriteAction::Remove { path } => WriteActionModel::Remove {
                path: path.deep_view(),
            },
        }
    }
}

/// What comes back.
#[derive(Debug, Clone, PartialEq, Eq)]
pub enum WriteReply {
    /// It is done.
    Done,
    /// It has failed.
    Failed { message: String },
}

/// The model of a [`WriteReply`].
#[verifier::ext_equal]
pub enum WriteReplyModel {
    Done,
    Failed { message: Seq<char> },
}

impl DeepView for WriteReply {
    type V = WriteReplyModel;

    open spec fn deep_view(&self) -> WriteReplyModel {
        match self {
            WriteReply::Done => WriteReplyModel::Done,
            WriteReply::Failed { message } => WriteReplyModel::Failed {
                message: message.deep_view(),
            },
        }
    }
}

/// What comes of a reply.
#[derive(Debug, Clone, PartialEq, Eq)]
pub enum WriteStep {
    /// The write goes on.
    Next { state: KeyWrite, action: WriteAction },
    /// The key is in its place.
    Written,
    /// The write has failed.
    Failed { message: String },
}

/// The model of a [`WriteStep`].
#[verifier::ext_equal]
pub enum WriteStepModel {
    Next { state: KeyWriteModel, action: WriteActionModel },
    Written,
    Failed { message: Seq<char> },
}

impl DeepView for WriteStep {
    type V = WriteStepModel;

    open spec fn deep_view(&self) -> WriteStepModel {
        match self {
            WriteStep::Next { state, action } => WriteStepModel::Next {
                state: state.deep_view(),
                action: action.deep_view(),
            },
            WriteStep::Written => WriteStepModel::Written,
            WriteStep::Failed { message } => WriteStepModel::Failed {
                message: message.deep_view(),
            },
        }
    }
}

/// What is done while a write waits.
pub open spec fn write_action(c: KeyFileModel, state: KeyWriteModel) -> WriteActionModel {
    match state {
        KeyWriteModel::Opening => WriteActionModel::Open { path: c.temporary },
        KeyWriteModel::Writing => WriteActionModel::Write { bytes: c.key },
        KeyWriteModel::Syncing => WriteActionModel::Sync,
        KeyWriteModel::Renaming => WriteActionModel::Rename { from: c.temporary, to: c.path },
        KeyWriteModel::CleaningUp { .. } => WriteActionModel::Remove { path: c.temporary },
    }
}

/// The step to a state.
pub open spec fn write_next(c: KeyFileModel, state: KeyWriteModel) -> WriteStepModel {
    WriteStepModel::Next { state, action: write_action(c, state) }
}

/// What the write of a key does when a reply comes.
///
/// The key goes to a new file beside its place, and that file is moved there
/// once it is whole. Where something fails, the new file is removed.
pub open spec fn write_step(
    c: KeyFileModel,
    state: KeyWriteModel,
    reply: WriteReplyModel,
) -> WriteStepModel {
    match (state, reply) {
        (KeyWriteModel::CleaningUp { message }, _) => WriteStepModel::Failed { message },
        (_, WriteReplyModel::Failed { message }) => write_next(
            c,
            KeyWriteModel::CleaningUp { message },
        ),
        (KeyWriteModel::Opening, WriteReplyModel::Done) => write_next(c, KeyWriteModel::Writing),
        (KeyWriteModel::Writing, WriteReplyModel::Done) => write_next(c, KeyWriteModel::Syncing),
        (KeyWriteModel::Syncing, WriteReplyModel::Done) => write_next(c, KeyWriteModel::Renaming),
        (KeyWriteModel::Renaming, WriteReplyModel::Done) => WriteStepModel::Written,
    }
}

fn copy_bytes(bytes: &Vec<u8>) -> (r: Vec<u8>)
    ensures
        r@ == bytes@,
{
    let mut out: Vec<u8> = Vec::new();
    let mut i: usize = 0;
    while i < bytes.len()
        invariant
            i <= bytes@.len(),
            out@ == bytes@.take(i as int),
        decreases bytes@.len() - i,
    {
        out.push(bytes[i]);
        i = i + 1;
        assert(out@ =~= bytes@.take(i as int));
    }
    assert(bytes@.take(i as int) =~= bytes@);
    out
}

impl KeyFile {
    /// The first thing that the write of a key does.
    pub fn start(&self) -> (r: WriteStep)
        ensures
            r.deep_view() == write_next(self.deep_view(), KeyWriteModel::Opening),
    {
        self.next(KeyWrite::Opening)
    }

    fn next(&self, state: KeyWrite) -> (r: WriteStep)
        ensures
            r.deep_view() == write_next(self.deep_view(), state.deep_view()),
    {
        let action = match &state {
            KeyWrite::Opening => WriteAction::Open { path: text::copy_texts(&self.temporary) },
            KeyWrite::Writing => WriteAction::Write { bytes: copy_bytes(&self.key) },
            KeyWrite::Syncing => WriteAction::Sync,
            KeyWrite::Renaming => WriteAction::Rename {
                from: text::copy_texts(&self.temporary),
                to: text::copy_texts(&self.path),
            },
            KeyWrite::CleaningUp { .. } => WriteAction::Remove {
                path: text::copy_texts(&self.temporary),
            },
        };
        WriteStep::Next { state, action }
    }
}

impl KeyWrite {
    /// Goes on with the write of a key when a reply comes.
    pub fn step(self, c: &KeyFile, reply: WriteReply) -> (r: WriteStep)
        ensures
            r.deep_view() == write_step(c.deep_view(), self.deep_view(), reply.deep_view()),
    {
        match (self, reply) {
            (KeyWrite::CleaningUp { message }, _) => WriteStep::Failed { message },
            (_, WriteReply::Failed { message }) => c.next(KeyWrite::CleaningUp { message }),
            (KeyWrite::Opening, WriteReply::Done) => c.next(KeyWrite::Writing),
            (KeyWrite::Writing, WriteReply::Done) => c.next(KeyWrite::Syncing),
            (KeyWrite::Syncing, WriteReply::Done) => c.next(KeyWrite::Renaming),
            (KeyWrite::Renaming, WriteReply::Done) => WriteStep::Written,
        }
    }
}

// ---------------------------------------------------------------------------
// Lookups on a disk
// ---------------------------------------------------------------------------
/// The files of a repo, by their paths from its root.
pub type Disk = Map<Seq<Seq<char>>, Seq<u8>>;

/// The disk after an action, and its reply, where a new key is `fresh`.
pub open spec fn disk_answers(
    disk: Disk,
    action: KeyActionModel,
    fresh: Seq<u8>,
) -> (Disk, KeyReplyModel) {
    match action {
        KeyActionModel::Exists { path } => (
            disk,
            KeyReplyModel::Exists { found: disk.contains_key(path) },
        ),
        KeyActionModel::Move { from, to } => (
            disk.remove(from).insert(to, disk[from]),
            KeyReplyModel::Moved,
        ),
        KeyActionModel::Read { path } => (disk, KeyReplyModel::Bytes { bytes: disk[path] }),
        KeyActionModel::Create { path } => (
            disk.insert(path, fresh),
            KeyReplyModel::Bytes { bytes: fresh },
        ),
    }
}

/// The disk after a lookup that is about to do `action`, and what comes of it,
/// in at most `fuel` steps.
pub open spec fn lookup_runs(
    disk: Disk,
    scope: KeyScopeModel,
    state: KeyLookupModel,
    action: KeyActionModel,
    fresh: Seq<u8>,
    fuel: nat,
) -> (Disk, KeyStepModel)
    decreases fuel,
{
    let (after, reply) = disk_answers(disk, action, fresh);
    match key_step(state, scope, reply) {
        KeyStepModel::Next { state, action } => if fuel == 0 {
            (after, KeyStepModel::Next { state, action })
        } else {
            lookup_runs(after, scope, state, action, fresh, (fuel - 1) as nat)
        },
        done => (after, done),
    }
}

/// A lookup from its start to its end.
pub open spec fn looked_up(disk: Disk, scope: KeyScopeModel, fresh: Seq<u8>) -> (
    Disk,
    KeyStepModel,
) {
    lookup_runs(
        disk,
        scope,
        KeyLookupModel::CheckingOwn,
        KeyActionModel::Exists { path: key_path(scope) },
        fresh,
        3,
    )
}

/// The old place is the place of no key.
pub proof fn lemma_old_place_is_free(scope: KeyScopeModel)
    ensures
        key_path(scope) != legacy_path(),
{
    reveal_strlit("connect_key");
    reveal_strlit("listen_key");
    if scope is Connect {
        assert(key_path(scope)[0].len() == 11);
        assert(legacy_path()[0].len() == 10);
    } else {
        assert(key_path(scope).len() > 1);
    }
}

/// What a lookup comes to: the key in its place, else the one in the old place,
/// which is moved, else a new one, but for a tunnel.
pub proof fn lookup_finds_moves_or_makes(disk: Disk, scope: KeyScopeModel, fresh: Seq<u8>)
    ensures
        looked_up(disk, scope, fresh) == (if disk.contains_key(key_path(scope)) {
            (disk, key_from(disk[key_path(scope)]))
        } else if !(scope is Connect) && disk.contains_key(legacy_path()) {
            (
                disk.remove(legacy_path()).insert(key_path(scope), disk[legacy_path()]),
                key_from(disk[legacy_path()]),
            )
        } else if scope is Tunnel {
            (disk, KeyStepModel::Missing)
        } else {
            (disk.insert(key_path(scope), fresh), key_from(fresh))
        }),
{
    lemma_old_place_is_free(scope);
    reveal_with_fuel(lookup_runs, 5);
}

/// A lookup that gave a key gives the same key again, and changes nothing more.
pub proof fn lookup_is_stable(
    disk: Disk,
    scope: KeyScopeModel,
    fresh: Seq<u8>,
    later: Seq<u8>,
    key: Seq<u8>,
)
    requires
        looked_up(disk, scope, fresh).1 == (KeyStepModel::Found { key }),
    ensures
        looked_up(looked_up(disk, scope, fresh).0, scope, later) == (
            looked_up(disk, scope, fresh).0,
            KeyStepModel::Found { key },
        ),
{
    lookup_finds_moves_or_makes(disk, scope, fresh);
    lookup_finds_moves_or_makes(looked_up(disk, scope, fresh).0, scope, later);
}

/// The old key is moved, not copied: the first who asks gets it, it is gone from
/// the old place, and a second project gets a new key.
pub proof fn old_key_goes_to_the_first(
    disk: Disk,
    first: KeyScopeModel,
    second: Seq<char>,
    fresh: Seq<u8>,
)
    requires
        !(first is Connect),
        disk.contains_key(legacy_path()),
        disk[legacy_path()].len() == KEY_LEN,
        !disk.contains_key(key_path(first)),
        key_path(first) != key_path(KeyScopeModel::Project { project: second }),
        !disk.contains_key(key_path(KeyScopeModel::Project { project: second })),
        fresh.len() == KEY_LEN,
    ensures
        ({
            let (after, got) = looked_up(disk, first, fresh);
            &&& got == (KeyStepModel::Found { key: disk[legacy_path()] })
            &&& !after.contains_key(legacy_path())
            &&& after.contains_key(key_path(first))
            &&& looked_up(after, KeyScopeModel::Project { project: second }, fresh).1 == (
            KeyStepModel::Found { key: fresh })
        }),
{
    let other = KeyScopeModel::Project { project: second };
    lookup_finds_moves_or_makes(disk, first, fresh);
    lemma_old_place_is_free(first);
    lemma_old_place_is_free(other);
    lookup_finds_moves_or_makes(looked_up(disk, first, fresh).0, other, fresh);
}

/// The key of a tunnel is never made up: without one in its place or the old
/// place, there is none and nothing changes.
pub proof fn tunnel_key_is_not_made_up(
    disk: Disk,
    project: Seq<char>,
    tunnel: Seq<char>,
    fresh: Seq<u8>,
)
    requires
        !disk.contains_key(legacy_path()),
        !disk.contains_key(key_path(KeyScopeModel::Tunnel { project, tunnel })),
    ensures
        looked_up(disk, KeyScopeModel::Tunnel { project, tunnel }, fresh) == (
            disk,
            KeyStepModel::Missing,
        ),
{
    lookup_finds_moves_or_makes(disk, KeyScopeModel::Tunnel { project, tunnel }, fresh);
}

/// Tunnels have keys of their own: two tunnels, of one project or of two, never
/// share a place.
pub proof fn tunnels_have_their_own_places(
    project: Seq<char>,
    tunnel: Seq<char>,
    other_project: Seq<char>,
    other_tunnel: Seq<char>,
)
    requires
        project != other_project || tunnel != other_tunnel,
    ensures
        key_path(KeyScopeModel::Tunnel { project, tunnel }) != key_path(
            KeyScopeModel::Tunnel { project: other_project, tunnel: other_tunnel },
        ),
{
    let a = key_path(KeyScopeModel::Tunnel { project, tunnel });
    let b = key_path(KeyScopeModel::Tunnel { project: other_project, tunnel: other_tunnel });
    assert(a[0] == project && a[1] == tunnel);
    assert(b[0] == other_project && b[1] == other_tunnel);
}

// ---------------------------------------------------------------------------
// Writes on a disk
// ---------------------------------------------------------------------------
/// Whether `after` can be the disk after what a write does while it waits; a
/// write of bytes that fails can leave any of them.
pub open spec fn disk_can_become(
    disk: Disk,
    c: KeyFileModel,
    state: KeyWriteModel,
    reply: WriteReplyModel,
    after: Disk,
) -> bool {
    match (write_action(c, state), reply) {
        (WriteActionModel::Open { path }, WriteReplyModel::Done) => after == disk.insert(
            path,
            Seq::empty(),
        ),
        (WriteActionModel::Write { bytes }, WriteReplyModel::Done) => after == disk.insert(
            c.temporary,
            bytes,
        ),
        (WriteActionModel::Write { .. }, WriteReplyModel::Failed { .. }) => exists|part: Seq<u8>|
            after == #[trigger] disk.insert(c.temporary, part),
        (WriteActionModel::Rename { from, to }, WriteReplyModel::Done) => after == disk.remove(
            from,
        ).insert(to, disk[from]),
        (WriteActionModel::Remove { path }, WriteReplyModel::Done) => after == disk.remove(path),
        _ => after == disk,
    }
}

/// What holds of the disk while a key is written that was begun on `start`:
/// nothing but the file beside its place has changed, and that file is whole
/// before it is moved.
pub open spec fn write_invariant(
    start: Disk,
    c: KeyFileModel,
    state: KeyWriteModel,
    disk: Disk,
) -> bool {
    &&& disk.remove(c.temporary) == start.remove(c.temporary)
    &&& state is Syncing || state is Renaming ==> disk.contains_key(c.temporary)
        && disk[c.temporary] == c.key
}

/// A key is written as a whole or not at all.
///
/// While it is being written, and wherever that stops, the old key is in its
/// place; once it is written, the new one is, and nothing is left beside it.
/// Where the write fails, the old key stays, and nothing is left beside it
/// either unless that could not be removed.
pub proof fn key_is_written_whole_or_not_at_all(
    start: Disk,
    c: KeyFileModel,
    state: KeyWriteModel,
    disk: Disk,
    reply: WriteReplyModel,
    after: Disk,
)
    requires
        c.path != c.temporary,
        write_invariant(start, c, state, disk),
        disk_can_become(disk, c, state, reply, after),
    ensures
        disk.contains_key(c.path) == start.contains_key(c.path),
        disk.contains_key(c.path) ==> disk[c.path] == start[c.path],
        match write_step(c, state, reply) {
            WriteStepModel::Next { state, .. } => write_invariant(start, c, state, after),
            WriteStepModel::Written => after == start.remove(c.temporary).insert(c.path, c.key),
            WriteStepModel::Failed { .. } => after.remove(c.temporary) == start.remove(c.temporary)
                && (reply is Done ==> !after.contains_key(c.temporary)),
        },
{
    assert(disk.remove(c.temporary).contains_key(c.path) == disk.contains_key(c.path));
    assert(start.remove(c.temporary).contains_key(c.path) == start.contains_key(c.path));
    assert(disk.remove(c.temporary)[c.path] == disk[c.path]);
    assert(start.remove(c.temporary)[c.path] == start[c.path]);
    match write_action(c, state) {
        WriteActionModel::Open { .. } => {
            assert(disk.insert(c.temporary, Seq::empty()).remove(c.temporary) =~= disk.remove(
                c.temporary,
            ));
        },
        WriteActionModel::Write { bytes } => {
            assert(disk.insert(c.temporary, bytes).remove(c.temporary) =~= disk.remove(
                c.temporary,
            ));
            if let WriteReplyModel::Failed { .. } = reply {
                let part = choose|part: Seq<u8>|
                    after == #[trigger] disk.insert(c.temporary, part);
                assert(disk.insert(c.temporary, part).remove(c.temporary) =~= disk.remove(
                    c.temporary,
                ));
            }
        },
        WriteActionModel::Remove { .. } => {
            assert(disk.remove(c.temporary).remove(c.temporary) =~= disk.remove(c.temporary));
        },
        _ => {},
    }
}

} // verus!
