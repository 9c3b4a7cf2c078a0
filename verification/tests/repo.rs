use std::collections::BTreeMap;

use datum_connect::repo::{
    listen_key_name, temporary_key_name, temporary_path, KeyAction, KeyFile, KeyLookup, KeyReply,
    KeyScope, KeyStep, MissingConnectDir, Repo, WriteAction, WriteReply, WriteStep,
};

#[test]
fn missing_connect_dir_display_contains_directive() {
    let msg = MissingConnectDir.message();
    assert!(msg.contains("DATUM_CONNECT_DIR is not set"), "msg = {msg}");
    assert!(msg.contains("datumctl connect tunnel"), "msg = {msg}");
    assert!(
        msg.contains("export DATUM_CONNECT_DIR=\"$HOME/.datumctl/connect\""),
        "msg = {msg}"
    );
    assert!(msg.contains("(exit 64)"), "msg = {msg}");
}

#[test]
fn returns_ok_when_var_set() {
    let path = Repo::default_location(Some("/tmp/test-connect-dir".to_string()));
    assert_eq!(path, Ok("/tmp/test-connect-dir".to_string()));
    assert_eq!(Repo::from_path("/x".to_string()).path(), "/x");
}

#[test]
fn returns_err_when_var_empty() {
    assert_eq!(Repo::default_location(Some(String::new())), Err(MissingConnectDir));
}

#[test]
fn returns_err_when_var_unset() {
    assert_eq!(Repo::default_location(None), Err(MissingConnectDir));
}

#[test]
fn files_are_named_after_what_they_hold() {
    assert_eq!(listen_key_name(&None, "20250102030405"), "listen_key.20250102030405");
    assert_eq!(
        listen_key_name(&Some("proj".to_string()), "20250102030405"),
        "listen_key.proj.20250102030405"
    );
    assert_eq!(temporary_key_name("listen_key", 12, 345), "listen_key.12.345.tmp");
    assert_eq!(
        temporary_key_name("k", 0, i64::MIN),
        "k.0.-9223372036854775808.tmp"
    );
}

struct Disk {
    files: BTreeMap<Vec<String>, Vec<u8>>,
    made: u8,
}

impl Disk {
    fn new() -> Disk {
        Disk {
            files: BTreeMap::new(),
            made: 100,
        }
    }

    fn answer(&mut self, action: KeyAction) -> KeyReply {
        match action {
            KeyAction::Exists { path } => KeyReply::Exists {
                found: self.files.contains_key(&path),
            },
            KeyAction::Move { from, to } => {
                let bytes = self.files.remove(&from).expect("the file exists");
                self.files.insert(to, bytes);
                KeyReply::Moved
            }
            KeyAction::Read { path } => KeyReply::Bytes {
                bytes: self.files[&path].clone(),
            },
            KeyAction::Create { path } => {
                self.made += 1;
                let bytes = vec![self.made; 32];
                self.files.insert(path, bytes.clone());
                KeyReply::Bytes { bytes }
            }
        }
    }

    fn look_up(&mut self, scope: &KeyScope) -> KeyStep {
        let (mut state, mut action) = scope.start();
        loop {
            let reply = self.answer(action);
            match state.step(scope, reply) {
                KeyStep::Next { state: s, action: a } => {
                    state = s;
                    action = a;
                }
                done => return done,
            }
        }
    }
}

fn path(parts: &[&str]) -> Vec<String> {
    parts.iter().map(|p| p.to_string()).collect()
}

fn project(name: &str) -> KeyScope {
    KeyScope::Project {
        project: name.to_string(),
    }
}

fn tunnel(project: &str, name: &str) -> KeyScope {
    KeyScope::Tunnel {
        project: project.to_string(),
        tunnel: name.to_string(),
    }
}

fn found(byte: u8) -> KeyStep {
    KeyStep::Found { key: vec![byte; 32] }
}

#[test]
fn listen_key_for_project_migrates_legacy_into_first_project() {
    let mut disk = Disk::new();
    disk.files.insert(path(&["listen_key"]), vec![7; 32]);
    assert_eq!(disk.look_up(&project("project-a")), found(7));
    assert!(!disk.files.contains_key(&path(&["listen_key"])));
    assert!(disk.files.contains_key(&path(&["project-a", "listen_key"])));
    assert_eq!(disk.look_up(&project("project-b")), found(101));
}

#[test]
fn listen_key_for_project_is_stable_across_calls() {
    let mut disk = Disk::new();
    assert_eq!(disk.look_up(&project("project-x")), found(101));
    assert_eq!(disk.look_up(&project("project-x")), found(101));
    assert!(!disk.files.contains_key(&path(&["listen_key"])));
    assert_eq!(disk.look_up(&KeyScope::Connect), found(102));
    assert!(disk.files.contains_key(&path(&["connect_key"])));
}

#[test]
fn listen_key_for_tunnel_migrates_legacy_key_to_default_tunnel() {
    let mut disk = Disk::new();
    disk.files.insert(path(&["listen_key"]), vec![7; 32]);
    assert_eq!(disk.look_up(&tunnel("proj-migrate", "default")), found(7));
    assert!(!disk.files.contains_key(&path(&["listen_key"])));
    assert!(disk
        .files
        .contains_key(&path(&["proj-migrate", "default", "listen_key"])));
    assert_eq!(disk.look_up(&tunnel("proj-migrate", "default")), found(7));
}

#[test]
fn listen_key_for_tunnel_two_tunnels_get_distinct_keys() {
    let mut disk = Disk::new();
    disk.files
        .insert(path(&["multi-proj", "tunnel-a", "listen_key"]), vec![1; 32]);
    disk.files
        .insert(path(&["multi-proj", "tunnel-b", "listen_key"]), vec![2; 32]);
    assert_eq!(disk.look_up(&tunnel("multi-proj", "tunnel-a")), found(1));
    assert_eq!(disk.look_up(&tunnel("multi-proj", "tunnel-b")), found(2));
}

#[test]
fn listen_key_for_tunnel_returns_none_when_key_missing() {
    let mut disk = Disk::new();
    assert_eq!(
        disk.look_up(&tunnel("missing-proj", "missing-tunnel")),
        KeyStep::Missing
    );
    assert!(disk.files.is_empty());
}

#[test]
fn listen_key_for_project_generates_fresh_without_legacy() {
    let mut disk = Disk::new();
    assert_eq!(disk.look_up(&project("only-project")), found(101));
    assert!(!disk.files.contains_key(&path(&["listen_key"])));
    assert_eq!(
        disk.files[&path(&["only-project", "listen_key"])],
        vec![101; 32]
    );
}

#[test]
fn listen_key_for_tunnel_fresh_project_generates_key_at_per_tunnel_path() {
    let mut disk = Disk::new();
    let place = path(&["my-project", "my-tunnel", "listen_key"]);
    disk.files.insert(place.clone(), vec![3; 32]);
    assert_eq!(disk.look_up(&tunnel("my-project", "my-tunnel")), found(3));
    assert_eq!(disk.files[&place], vec![3; 32]);
}

#[test]
fn listen_key_for_tunnel_is_stable_across_calls() {
    let mut disk = Disk::new();
    let place = path(&["stable-proj", "stable-tunnel", "listen_key"]);
    disk.files.insert(place, vec![4; 32]);
    let first = disk.look_up(&tunnel("stable-proj", "stable-tunnel"));
    let second = disk.look_up(&tunnel("stable-proj", "stable-tunnel"));
    assert_eq!(first, found(4));
    assert_eq!(first, second);
}

#[test]
fn a_key_has_thirty_two_bytes() {
    let mut disk = Disk::new();
    disk.files.insert(path(&["connect_key"]), vec![1; 31]);
    assert_eq!(
        disk.look_up(&KeyScope::Connect),
        KeyStep::Failed {
            message: "could not convert slice to array".to_string()
        }
    );
    let refused = KeyReply::Failed {
        message: "permission denied".to_string(),
    };
    assert_eq!(
        KeyLookup::Reading.step(&KeyScope::Connect, refused),
        KeyStep::Failed {
            message: "permission denied".to_string()
        }
    );
    assert_eq!(project("p").path(), path(&["p", "listen_key"]));
}

// Writing keys.

/// Writes a key to a disk on which the action number `fails` fails, and hands
/// back what came of it.
fn write_key(disk: &mut Disk, file: &KeyFile, fails: Option<usize>) -> WriteStep {
    let mut step = file.start();
    let mut count = 0;
    loop {
        match step {
            WriteStep::Next { state, action } => {
                let failing = fails == Some(count);
                count += 1;
                let reply = if failing {
                    if let WriteAction::Write { bytes } = &action {
                        disk.files
                            .insert(file.temporary.clone(), bytes[..3].to_vec());
                    }
                    WriteReply::Failed {
                        message: "no".to_string(),
                    }
                } else {
                    match action {
                        WriteAction::Open { path } => {
                            disk.files.insert(path, vec![]);
                        }
                        WriteAction::Write { bytes } => {
                            disk.files.insert(file.temporary.clone(), bytes);
                        }
                        WriteAction::Sync => {}
                        WriteAction::Rename { from, to } => {
                            let bytes = disk.files.remove(&from).expect("a file to move");
                            disk.files.insert(to, bytes);
                        }
                        WriteAction::Remove { path } => {
                            disk.files.remove(&path);
                        }
                    }
                    WriteReply::Done
                };
                step = state.step(file, reply);
            }
            done => return done,
        }
    }
}

fn key_file() -> KeyFile {
    let own = path(&["proj", "tun", "listen_key"]);
    KeyFile {
        temporary: temporary_path(&own, 7, 99).expect("a path with a name"),
        path: own,
        key: vec![5; 32],
    }
}

#[test]
fn a_key_is_written_beside_its_place_first() {
    let file = key_file();
    assert_eq!(
        file.temporary,
        path(&["proj", "tun", "listen_key.7.99.tmp"])
    );
    assert_eq!(
        temporary_path(&vec![], 7, 99),
        Err("secret key path has no file name".to_string())
    );
    let mut disk = Disk::new();
    disk.files.insert(file.path.clone(), b"old".to_vec());
    assert_eq!(write_key(&mut disk, &file, None), WriteStep::Written);
    assert_eq!(disk.files.len(), 1);
    assert_eq!(disk.files[&file.path], vec![5; 32]);
}

#[test]
fn a_failed_write_keeps_the_old_key() {
    let file = key_file();
    for fails in 0..4 {
        let mut disk = Disk::new();
        disk.files.insert(file.path.clone(), b"old".to_vec());
        assert_eq!(
            write_key(&mut disk, &file, Some(fails)),
            WriteStep::Failed {
                message: "no".to_string()
            }
        );
        assert_eq!(disk.files.len(), 1, "failing at {fails}");
        assert_eq!(disk.files[&file.path], b"old".to_vec());
    }
}

#[test]
fn key_writes_leave_no_temp_files_behind() {
    let file = key_file();
    let mut disk = Disk::new();
    assert_eq!(write_key(&mut disk, &file, None), WriteStep::Written);
    assert_eq!(write_key(&mut disk, &file, None), WriteStep::Written);
    assert_eq!(disk.files.keys().collect::<Vec<_>>(), vec![&file.path]);
}

#[test]
fn failed_key_write_cleans_up_its_temp_file() {
    let file = key_file();
    let mut disk = Disk::new();
    // The file cannot be moved into its place.
    assert!(matches!(
        write_key(&mut disk, &file, Some(3)),
        WriteStep::Failed { .. }
    ));
    assert!(disk.files.is_empty());
}
