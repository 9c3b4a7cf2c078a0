//! Identifiers that are valid by construction: project IDs, which are safe as
//! one path component, and tunnel IDs, which are DNS subdomains.
use vstd::prelude::*;

use crate::numbers;
use crate::text;

verus! {

// ---------------------------------------------------------------------------
// Project IDs
// ---------------------------------------------------------------------------
/// Why a text is no project ID.
#[derive(Debug, Clone, PartialEq, Eq)]
pub enum ProjectIdError {
    Empty,
    CurrentDirectory,
    ParentDirectory,
    Absolute,
    PathSeparator,
    WindowsPathPrefix,
    WindowsTrailingDotOrSpace,
    WindowsReservedName { name: String },
    Nul { index: usize },
    ControlCharacter { index: usize },
}

/// The model of a [`ProjectIdError`].
pub enum ProjectIdFault {
    Empty,
    CurrentDirectory,
    ParentDirectory,
    Absolute,
    PathSeparator,
    WindowsPathPrefix,
    WindowsTrailingDotOrSpace,
    WindowsReservedName { name: Seq<char> },
    Nul { index: nat },
    ControlCharacter { index: nat },
}

impl View for ProjectIdError {
    type V = ProjectIdFault;

    open spec fn view(&self) -> ProjectIdFault {
        match *self {
            ProjectIdError::Empty => ProjectIdFault::Empty,
            ProjectIdError::CurrentDirectory => ProjectIdFault::CurrentDirectory,
            ProjectIdError::ParentDirectory => ProjectIdFault::ParentDirectory,
            ProjectIdError::Absolute => ProjectIdFault::Absolute,
            ProjectIdError::PathSeparator => ProjectIdFault::PathSeparator,
            ProjectIdError::WindowsPathPrefix => ProjectIdFault::WindowsPathPrefix,
            ProjectIdError::WindowsTrailingDotOrSpace => ProjectIdFault::WindowsTrailingDotOrSpace,
            ProjectIdError::WindowsReservedName { name } => ProjectIdFault::WindowsReservedName {
                name: name@,
            },
            ProjectIdError::Nul { index } => ProjectIdFault::Nul { index: index as nat },
            ProjectIdError::ControlCharacter { index } => ProjectIdFault::ControlCharacter {
                index: index as nat,
            },
        }
    }
}

/// The class of control characters.
pub open spec fn control_class() -> spec_fn(char) -> bool {
    |c: char| text::is_control(c)
}

/// The part of a file name before its first dot.
pub open spec fn stem(s: Seq<char>) -> Seq<char> {
    s.take(text::first_where(s, text::exactly('.')) as int)
}

/// The device names that Windows reserves, whatever extension follows.
pub open spec fn is_windows_device(s: Seq<char>) -> bool {
    ||| s == "CON"@
    ||| s == "PRN"@
    ||| s == "AUX"@
    ||| s == "NUL"@
    ||| s.len() == 4 && '1' <= s[3] <= '9' && (s.take(3) == "COM"@ || s.take(3) == "LPT"@)
}

/// What is wrong with `s` as a project ID: the first of the rules below that
/// it breaks.
pub open spec fn project_id_fault(s: Seq<char>) -> Option<ProjectIdFault> {
    let nul = text::first_where(s, text::exactly('\0'));
    let control = text::first_where(s, control_class());
    if s.len() == 0 {
        Some(ProjectIdFault::Empty)
    } else if s == "."@ {
        Some(ProjectIdFault::CurrentDirectory)
    } else if s == ".."@ {
        Some(ProjectIdFault::ParentDirectory)
    } else if s[0] == '/' {
        Some(ProjectIdFault::Absolute)
    } else if s.contains('/') || s.contains('\\') {
        Some(ProjectIdFault::PathSeparator)
    } else if s.contains(':') {
        Some(ProjectIdFault::WindowsPathPrefix)
    } else if s.last() == '.' || s.last() == ' ' {
        Some(ProjectIdFault::WindowsTrailingDotOrSpace)
    } else if is_windows_device(text::ascii_upper(stem(s))) {
        Some(ProjectIdFault::WindowsReservedName { name: stem(s) })
    } else if nul < s.len() {
        Some(ProjectIdFault::Nul { index: text::utf8_len(s.take(nul as int)) })
    } else if control < s.len() {
        Some(ProjectIdFault::ControlCharacter { index: text::utf8_len(s.take(control as int)) })
    } else {
        None
    }
}

/// Whether `s` is safe to use as a single path component on every platform.
pub open spec fn is_safe_component(s: Seq<char>) -> bool {
    &&& s.len() > 0
    &&& s != "."@
    &&& s != ".."@
    &&& !s.contains('/')
    &&& !s.contains('\\')
    &&& !s.contains(':')
    &&& s.last() != '.'
    &&& s.last() != ' '
    &&& !is_windows_device(text::ascii_upper(stem(s)))
    &&& forall|i: int| 0 <= i < s.len() ==> !text::is_control(#[trigger] s[i])
}

/// A text is accepted as a project ID exactly when it is a safe path component.
pub proof fn project_id_accepts_exactly_safe_components(s: Seq<char>)
    ensures
        project_id_fault(s) is None <==> is_safe_component(s),
{
    text::lemma_first_where(s, text::exactly('\0'));
    text::lemma_first_where(s, control_class());
    let nul = text::first_where(s, text::exactly('\0')) as int;
    let control = text::first_where(s, control_class()) as int;
    if is_safe_component(s) {
        assert(s[0] != '/') by {
            assert(s.contains(s[0]));
        }
        if nul < s.len() {
            assert(text::is_control(s[nul]));
        }
        if control < s.len() {
            assert(text::is_control(s[control]));
        }
    }
    if project_id_fault(s) is None {
        assert forall|i: int| 0 <= i < s.len() implies !text::is_control(#[trigger] s[i]) by {
            assert(!control_class()(s[i]));
        }
    }
}

fn has_char(v: &[char], c: char) -> (r: bool)
    ensures
        r == v@.contains(c),
{
    let i: usize = text::find_char(v, c);
    proof {
        text::lemma_first_where(v@, text::exactly(c));
        if i == v@.len() {
            assert forall|j: int| 0 <= j < v@.len() implies v@[j] != c by {
                assert(!text::exactly(c)(v@[j]));
            }
        } else {
            assert(v@[i as int] == c);
        }
    }
    i < v.len()
}

fn find_control(v: &[char]) -> (r: usize)
    ensures
        r == text::first_where(v@, control_class()),
        r <= v@.len(),
{
    let mut i: usize = 0;
    while i < v.len() && !text::char_is_control(v[i])
        invariant
            i <= v@.len(),
            forall|j: int| 0 <= j < i ==> !control_class()(#[trigger] v@[j]),
        decreases v@.len() - i,
    {
        i = i + 1;
    }
    proof {
        text::lemma_first_where_is(v@, control_class(), i as int);
    }
    i
}

/// Whether `v` is a reserved device name, in either case.
fn names_windows_device(v: &[char]) -> (r: bool)
    ensures
        r == is_windows_device(text::ascii_upper(v@)),
{
    let upper = text::ascii_upper_of(v);
    proof {
        reveal_strlit("CON");
        reveal_strlit("PRN");
        reveal_strlit("AUX");
        reveal_strlit("NUL");
        reveal_strlit("COM");
        reveal_strlit("LPT");
    }
    let s = text::string_of(&upper);
    if text::text_eq(&s, "CON") || text::text_eq(&s, "PRN") || text::text_eq(&s, "AUX")
        || text::text_eq(&s, "NUL") {
        return true;
    }
    if upper.len() == 4 && '1' <= upper[3] && upper[3] <= '9' {
        let head = text::string_between(&upper, 0, 3);
        assert(upper@.subrange(0, 3) =~= upper@.take(3));
        text::text_eq(&head, "COM") || text::text_eq(&head, "LPT")
    } else {
        false
    }
}

/// Checks that `value` is a project ID.
pub fn validate_project_id(value: &str) -> (r: Result<(), ProjectIdError>)
    ensures
        match r {
            Ok(()) => project_id_fault(value@) is None,
            Err(e) => project_id_fault(value@) == Some(e@),
        },
        r is Ok <==> is_safe_component(value@),
{
    proof {
        project_id_accepts_exactly_safe_components(value@);
    }
    // The length in bytes fits, so every offset does.
    let _length: usize = text::byte_len(value);
    let v = text::chars_of(value);
    if v.len() == 0 {
        return Err(ProjectIdError::Empty);
    }
    if text::text_eq(value, ".") {
        return Err(ProjectIdError::CurrentDirectory);
    }
    if text::text_eq(value, "..") {
        return Err(ProjectIdError::ParentDirectory);
    }
    if v[0] == '/' {
        return Err(ProjectIdError::Absolute);
    }
    if has_char(&v, '/') || has_char(&v, '\\') {
        return Err(ProjectIdError::PathSeparator);
    }
    if has_char(&v, ':') {
        return Err(ProjectIdError::WindowsPathPrefix);
    }
    let last: char = v[v.len() - 1];
    if last == '.' || last == ' ' {
        return Err(ProjectIdError::WindowsTrailingDotOrSpace);
    }
    let dot: usize = text::find_char(&v, '.');
    let name = text::string_between(&v, 0, dot);
    assert(name@ =~= stem(value@));
    let name_chars = text::chars_of(&name);
    if names_windows_device(&name_chars) {
        return Err(ProjectIdError::WindowsReservedName { name });
    }
    let nul: usize = text::find_char(&v, '\0');
    if nul < v.len() {
        return Err(ProjectIdError::Nul { index: text::byte_offset(&v, nul) });
    }
    let control: usize = find_control(&v);
    if control < v.len() {
        return Err(ProjectIdError::ControlCharacter { index: text::byte_offset(&v, control) });
    }
    Ok(())
}

/// A project identifier: a text that is safe as a single path component.
#[derive(Debug, PartialEq, Eq, PartialOrd, Ord, Hash)]
pub struct ProjectId(String);

impl Clone for ProjectId {
    fn clone(&self) -> (r: Self)
        ensures
            r@ == self@,
    {
        proof {
            use_type_invariant(self);
        }
        ProjectId(self.0.clone())
    }
}

impl TryFrom<&str> for ProjectId {
    type Error = ProjectIdError;

    fn try_from(value: &str) -> (r: Result<Self, ProjectIdError>)
        ensures
            match r {
                Ok(id) => project_id_fault(value@) is None && id@ == value@,
                Err(e) => project_id_fault(value@) == Some(e@),
            },
    {
        ProjectId::new(value)
    }
}

impl vstd::std_specs::convert::TryFromSpecImpl<&str> for ProjectId {
    open spec fn obeys_try_from_spec() -> bool {
        false
    }

    open spec fn try_from_spec(v: &str) -> Result<Self, ProjectIdError> {
        arbitrary()
    }
}

impl View for ProjectId {
    type V = Seq<char>;

    closed spec fn view(&self) -> Seq<char> {
        self.0@
    }
}

impl ProjectId {
    #[verifier::type_invariant]
    spec fn valid(self) -> bool {
        is_safe_component(self.0@)
    }

    /// The project ID with the text `value`.
    pub fn new(value: &str) -> (r: Result<Self, ProjectIdError>)
        ensures
            match r {
                Ok(id) => project_id_fault(value@) is None && id@ == value@,
                Err(e) => project_id_fault(value@) == Some(e@),
            },
    {
        match validate_project_id(value) {
            Ok(()) => Ok(ProjectId(value.to_owned())),
            Err(e) => Err(e),
        }
    }

    pub fn as_str(&self) -> (r: &str)
        ensures
            r@ == self@,
            is_safe_component(r@),
    {
        proof {
            use_type_invariant(self);
        }
        self.0.as_str()
    }

    pub fn into_inner(self) -> (r: String)
        ensures
            r@ == self@,
            is_safe_component(r@),
    {
        proof {
            use_type_invariant(&self);
        }
        self.0
    }
}

impl ProjectIdError {
    /// The message of this error.
    pub fn message(&self) -> (r: String)
        ensures
            r@ == project_id_message(self@),
    {
        match self {
            ProjectIdError::Empty => "project ID must not be empty".to_owned(),
            ProjectIdError::CurrentDirectory => "project ID must not be '.'".to_owned(),
            ProjectIdError::ParentDirectory => "project ID must not be '..'".to_owned(),
            ProjectIdError::Absolute => "project ID must not be absolute".to_owned(),
            ProjectIdError::PathSeparator => "project ID must not contain '/' or '\\'".to_owned(),
            ProjectIdError::WindowsPathPrefix => "project ID must not contain ':'".to_owned(),
            ProjectIdError::WindowsTrailingDotOrSpace => {
                "project ID must not end in a dot or space".to_owned()
            },
            ProjectIdError::WindowsReservedName { name } => text::concat3(
                "project ID must not use reserved Windows device name '",
                name,
                "'",
            ),
            ProjectIdError::Nul { index } => text::concat3(
                "project ID must not contain NUL (at byte ",
                &numbers::decimal_text(*index as u64),
                ")",
            ),
            ProjectIdError::ControlCharacter { index } => text::concat3(
                "project ID must not contain control characters (at byte ",
                &numbers::decimal_text(*index as u64),
                ")",
            ),
        }
    }
}

/// The message that stands for each fault of a project ID.
pub open spec fn project_id_message(fault: ProjectIdFault) -> Seq<char> {
    match fault {
        ProjectIdFault::Empty => "project ID must not be empty"@,
        ProjectIdFault::CurrentDirectory => "project ID must not be '.'"@,
        ProjectIdFault::ParentDirectory => "project ID must not be '..'"@,
        ProjectIdFault::Absolute => "project ID must not be absolute"@,
        ProjectIdFault::PathSeparator => "project ID must not contain '/' or '\\'"@,
        ProjectIdFault::WindowsPathPrefix => "project ID must not contain ':'"@,
        ProjectIdFault::WindowsTrailingDotOrSpace => "project ID must not end in a dot or space"@,
        ProjectIdFault::WindowsReservedName { name } =>
            "project ID must not use reserved Windows device name '"@ + name + "'"@,
        ProjectIdFault::Nul { index } => "project ID must not contain NUL (at byte "@
            + numbers::decimal(index) + ")"@,
        ProjectIdFault::ControlCharacter { index } =>
            "project ID must not contain control characters (at byte "@ + numbers::decimal(index)
            + ")"@,
    }
}

// ---------------------------------------------------------------------------
// Tunnel IDs
// ---------------------------------------------------------------------------
/// Why a text is no tunnel ID. Labels are counted from zero.
#[derive(Debug, Clone, Copy, PartialEq, Eq)]
pub enum TunnelIdError {
    Empty,
    TooLong { length: usize },
    EmptyLabel { label: usize },
    LabelTooLong { label: usize, length: usize },
    InvalidCharacter { character: char, index: usize },
    InvalidLabelStart { label: usize },
    InvalidLabelEnd { label: usize },
}

/// The letters and digits of a DNS label.
pub open spec fn is_label_alphanumeric(c: char) -> bool {
    'a' <= c <= 'z' || '0' <= c <= '9'
}

/// The characters of a DNS subdomain.
pub open spec fn is_subdomain_char(c: char) -> bool {
    is_label_alphanumeric(c) || c == '-' || c == '.'
}

/// The class of characters that no DNS subdomain holds.
pub open spec fn foreign_class() -> spec_fn(char) -> bool {
    |c: char| !is_subdomain_char(c)
}

/// What is wrong with the label number `k`.
pub open spec fn label_fault(label: Seq<char>, k: int) -> Option<TunnelIdError> {
    if label.len() == 0 {
        Some(TunnelIdError::EmptyLabel { label: k as usize })
    } else if label.len() > 63 {
        Some(TunnelIdError::LabelTooLong { label: k as usize, length: label.len() as usize })
    } else if !is_label_alphanumeric(label[0]) {
        Some(TunnelIdError::InvalidLabelStart { label: k as usize })
    } else if !is_label_alphanumeric(label.last()) {
        Some(TunnelIdError::InvalidLabelEnd { label: k as usize })
    } else {
        None
    }
}

/// What is wrong with the first faulty label from number `k` on.
pub open spec fn labels_fault(labels: Seq<Seq<char>>, k: int) -> Option<TunnelIdError>
    decreases labels.len() - k,
{
    if k < 0 || k >= labels.len() {
        None
    } else if label_fault(labels[k], k) is Some {
        label_fault(labels[k], k)
    } else {
        labels_fault(labels, k + 1)
    }
}

/// What is wrong with `s` as a tunnel ID: the first of the rules below that it
/// breaks.
pub open spec fn tunnel_id_fault(s: Seq<char>) -> Option<TunnelIdError> {
    let foreign = text::first_where(s, foreign_class());
    if s.len() == 0 {
        Some(TunnelIdError::Empty)
    } else if text::utf8_len(s) > 253 {
        Some(TunnelIdError::TooLong { length: text::utf8_len(s) as usize })
    } else if foreign < s.len() {
        Some(
            TunnelIdError::InvalidCharacter {
                character: s[foreign as int],
                index: text::utf8_len(s.take(foreign as int)) as usize,
            },
        )
    } else {
        labels_fault(text::split_on(s, '.'), 0)
    }
}

/// A DNS label: 1 to 63 characters that start and end with a letter or digit.
pub open spec fn is_dns_label(label: Seq<char>) -> bool {
    1 <= label.len() <= 63 && is_label_alphanumeric(label[0]) && is_label_alphanumeric(label.last())
}

/// A DNS subdomain as Kubernetes names objects: at most 253 bytes of lower-case
/// letters, digits, `-` and `.`, whose dot-separated labels are DNS labels.
pub open spec fn is_dns_subdomain(s: Seq<char>) -> bool {
    &&& s.len() > 0
    &&& text::utf8_len(s) <= 253
    &&& forall|i: int| 0 <= i < s.len() ==> is_subdomain_char(#[trigger] s[i])
    &&& forall|k: int|
        0 <= k < text::split_on(s, '.').len() ==> is_dns_label(#[trigger] text::split_on(s, '.')[k])
}

proof fn lemma_labels_fault(labels: Seq<Seq<char>>, k: int)
    requires
        0 <= k,
    ensures
        labels_fault(labels, k) is None <==> forall|j: int|
            k <= j < labels.len() ==> is_dns_label(#[trigger] labels[j]),
    decreases labels.len() - k,
{
    if k < labels.len() {
        lemma_labels_fault(labels, k + 1);
        assert(label_fault(labels[k], k) is None <==> is_dns_label(labels[k]));
    }
}

/// A text is accepted as a tunnel ID exactly when it is a DNS subdomain.
pub proof fn tunnel_id_accepts_exactly_dns_subdomains(s: Seq<char>)
    ensures
        tunnel_id_fault(s) is None <==> is_dns_subdomain(s),
{
    text::lemma_first_where(s, foreign_class());
    lemma_labels_fault(text::split_on(s, '.'), 0);
    let foreign = text::first_where(s, foreign_class()) as int;
    if foreign < s.len() {
        assert(!is_subdomain_char(s[foreign]));
    } else {
        assert forall|i: int| 0 <= i < s.len() implies is_subdomain_char(#[trigger] s[i]) by {
            assert(!foreign_class()(s[i]));
        }
    }
}

fn label_alphanumeric(c: char) -> (r: bool)
    ensures
        r == is_label_alphanumeric(c),
{
    ('a' <= c && c <= 'z') || ('0' <= c && c <= '9')
}

fn find_foreign(v: &[char]) -> (r: usize)
    ensures
        r == text::first_where(v@, foreign_class()),
        r <= v@.len(),
{
    let mut i: usize = 0;
    while i < v.len() && (label_alphanumeric(v[i]) || v[i] == '-' || v[i] == '.')
        invariant
            i <= v@.len(),
            forall|j: int| 0 <= j < i ==> !foreign_class()(#[trigger] v@[j]),
        decreases v@.len() - i,
    {
        i = i + 1;
    }
    proof {
        text::lemma_first_where_is(v@, foreign_class(), i as int);
    }
    i
}

/// Checks that `value` is a tunnel ID.
pub fn validate_tunnel_id(value: &str) -> (r: Result<(), TunnelIdError>)
    ensures
        match r {
            Ok(()) => tunnel_id_fault(value@) is None,
            Err(e) => tunnel_id_fault(value@) == Some(e),
        },
        r is Ok <==> is_dns_subdomain(value@),
{
    proof {
        tunnel_id_accepts_exactly_dns_subdomains(value@);
    }
    let total: usize = text::byte_len(value);
    let v = text::chars_of(value);
    if v.len() == 0 {
        return Err(TunnelIdError::Empty);
    }
    if total > 253 {
        return Err(TunnelIdError::TooLong { length: total });
    }
    let foreign: usize = find_foreign(&v);
    if foreign < v.len() {
        return Err(
            TunnelIdError::InvalidCharacter {
                character: v[foreign],
                index: text::byte_offset(&v, foreign),
            },
        );
    }
    let labels = text::split(&v, '.');
    let ghost parts = text::split_on(value@, '.');
    let mut k: usize = 0;
    while k < labels.len()
        invariant
            k <= labels@.len(),
            labels.deep_view() == parts,
            labels_fault(parts, k as int) == tunnel_id_fault(value@),
            tunnel_id_fault(value@) is None <==> is_dns_subdomain(value@),
        decreases labels@.len() - k,
    {
        let label = text::chars_of(&labels[k]);
        assert(label@ == parts[k as int]);
        if label.len() == 0 {
            return Err(TunnelIdError::EmptyLabel { label: k });
        }
        if label.len() > 63 {
            return Err(TunnelIdError::LabelTooLong { label: k, length: label.len() });
        }
        if !label_alphanumeric(label[0]) {
            return Err(TunnelIdError::InvalidLabelStart { label: k });
        }
        if !label_alphanumeric(label[label.len() - 1]) {
            return Err(TunnelIdError::InvalidLabelEnd { label: k });
        }
        k = k + 1;
    }
    Ok(())
}

/// A tunnel identifier: a DNS subdomain.
#[derive(Debug, PartialEq, Eq, PartialOrd, Ord, Hash)]
pub struct TunnelId(String);

impl Clone for TunnelId {
    fn clone(&self) -> (r: Self)
        ensures
            r@ == self@,
    {
        proof {
            use_type_invariant(self);
        }
        TunnelId(self.0.clone())
    }
}

impl TryFrom<&str> for TunnelId {
    type Error = TunnelIdError;

    fn try_from(value: &str) -> (r: Result<Self, TunnelIdError>)
        ensures
            match r {
                Ok(id) => tunnel_id_fault(value@) is None && id@ == value@,
                Err(e) => tunnel_id_fault(value@) == Some(e),
            },
    {
        TunnelId::new(value)
    }
}

impl vstd::std_specs::convert::TryFromSpecImpl<&str> for TunnelId {
    open spec fn obeys_try_from_spec() -> bool {
        false
    }

    open spec fn try_from_spec(v: &str) -> Result<Self, TunnelIdError> {
        arbitrary()
    }
}

impl View for TunnelId {
    type V = Seq<char>;

    closed spec fn view(&self) -> Seq<char> {
        self.0@
    }
}

impl TunnelId {
    #[verifier::type_invariant]
    spec fn valid(self) -> bool {
        is_dns_subdomain(self.0@)
    }

    /// The tunnel ID with the text `value`.
    pub fn new(value: &str) -> (r: Result<Self, TunnelIdError>)
        ensures
            match r {
                Ok(id) => tunnel_id_fault(value@) is None && id@ == value@,
                Err(e) => tunnel_id_fault(value@) == Some(e),
            },
    {
        match validate_tunnel_id(value) {
            Ok(()) => Ok(TunnelId(value.to_owned())),
            Err(e) => Err(e),
        }
    }

    pub fn as_str(&self) -> (r: &str)
        ensures
            r@ == self@,
            is_dns_subdomain(r@),
    {
        proof {
            use_type_invariant(self);
        }
        self.0.as_str()
    }

    pub fn into_inner(self) -> (r: String)
        ensures
            r@ == self@,
            is_dns_subdomain(r@),
    {
        proof {
            use_type_invariant(&self);
        }
        self.0
    }
}

/// The message that stands for each fault of a tunnel ID.
pub open spec fn tunnel_id_message(e: TunnelIdError) -> Seq<char> {
    match e {
        TunnelIdError::Empty => "tunnel ID must not be empty"@,
        TunnelIdError::TooLong { length } => "tunnel ID must be at most 253 bytes, got "@
            + numbers::decimal(length as nat),
        TunnelIdError::EmptyLabel { label } => "tunnel ID label "@ + numbers::decimal(label as nat)
            + " must not be empty"@,
        TunnelIdError::LabelTooLong { label, length } => "tunnel ID label "@ + numbers::decimal(
            label as nat,
        ) + " must be at most 63 bytes, got "@ + numbers::decimal(length as nat),
        TunnelIdError::InvalidCharacter { character, index } =>
            "tunnel ID contains invalid character '"@ + seq![character] + "' at byte "@
            + numbers::decimal(index as nat),
        TunnelIdError::InvalidLabelStart { label } => "tunnel ID label "@ + numbers::decimal(
            label as nat,
        ) + " must start with a lowercase letter or digit"@,
        TunnelIdError::InvalidLabelEnd { label } => "tunnel ID label "@ + numbers::decimal(
            label as nat,
        ) + " must end with a lowercase letter or digit"@,
    }
}

impl TunnelIdError {
    /// The message of this error.
    pub fn message(&self) -> (r: String)
        ensures
            r@ == tunnel_id_message(*self),
    {
        match *self {
            TunnelIdError::Empty => "tunnel ID must not be empty".to_owned(),
            TunnelIdError::TooLong { length } => text::concat2(
                "tunnel ID must be at most 253 bytes, got ",
                &numbers::decimal_text(length as u64),
            ),
            TunnelIdError::EmptyLabel { label } => text::concat3(
                "tunnel ID label ",
                &numbers::decimal_text(label as u64),
                " must not be empty",
            ),
            TunnelIdError::LabelTooLong { label, length } => {
                let mut out = text::concat3(
                    "tunnel ID label ",
                    &numbers::decimal_text(label as u64),
                    " must be at most 63 bytes, got ",
                );
                out.append(&numbers::decimal_text(length as u64));
                out
            },
            TunnelIdError::InvalidCharacter { character, index } => {
                let mut out = "tunnel ID contains invalid character '".to_owned();
                out.push(character);
                assert(out@ =~= "tunnel ID contains invalid character '"@ + seq![character]);
                out.append("' at byte ");
                out.append(&numbers::decimal_text(index as u64));
                out
            },
            TunnelIdError::InvalidLabelStart { label } => text::concat3(
                "tunnel ID label ",
                &numbers::decimal_text(label as u64),
                " must start with a lowercase letter or digit",
            ),
            TunnelIdError::InvalidLabelEnd { label } => text::concat3(
                "tunnel ID label ",
                &numbers::decimal_text(label as u64),
                " must end with a lowercase letter or digit",
            ),
        }
    }
}

} // verus!
