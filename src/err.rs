//! The wire record and its error codes.
use vstd::prelude::*;
use crate::status::{parse_status, valid_status};
use crate::wellknown::{known, lemma_remote_table, lookup, registered, remote_code, KnownCode, RemoteStatus};

verus! {

/// A stable, machine-readable error name paired with its HTTP status.
#[derive(Debug)]
pub struct ErrorCode {
    pub name: String,
    pub http_status: u16,
}

impl View for ErrorCode {
    type V = (Seq<char>, u16);

    open spec fn view(&self) -> (Seq<char>, u16) {
        (self.name@, self.http_status)
    }
}

impl ErrorCode {
    pub open spec fn wf(&self) -> bool {
        valid_status(self.http_status as int)
    }

    pub fn new(name: &str, status: u16) -> (r: Self)
        requires
            valid_status(status as int),
        ensures
            r@ == (name@, status),
            r.wf(),
    {
        ErrorCode { name: name.to_string(), http_status: status }
    }

    /// A copy of this code.
    pub fn duplicate(&self) -> (r: Self)
        ensures
            r@ == self@,
    {
        ErrorCode { name: self.name.clone(), http_status: self.http_status }
    }

    /// Two codes are the same code when their names are equal.
    pub open spec fn same_code(&self, o: &ErrorCode) -> bool {
        self.name@ == o.name@
    }

    /// The code as it stands alone on the wire: its name.
    pub fn to_string(&self) -> (r: String)
        ensures
            r@ == self.name@,
    {
        self.name.clone()
    }
}

} // verus!

verus! {

impl PartialEq for ErrorCode {
    fn eq(&self, o: &ErrorCode) -> (r: bool)
        ensures
            r == self.same_code(o),
    {
        self.name == o.name
    }
}

impl vstd::std_specs::cmp::PartialEqSpecImpl for ErrorCode {
    open spec fn obeys_eq_spec() -> bool {
        true
    }

    open spec fn eq_spec(&self, o: &ErrorCode) -> bool {
        self.same_code(o)
    }
}

/// The chars of a decimal digit.
pub open spec fn digit_char(d: nat) -> char {
    seq!['0', '1', '2', '3', '4', '5', '6', '7', '8', '9'][d as int]
}

/// The decimal digits of a natural number, without leading zeros.
pub open spec fn digits(n: nat) -> Seq<char>
    decreases n,
{
    if n < 10 {
        seq![digit_char(n)]
    } else {
        digits(n / 10).push(digit_char(n % 10))
    }
}

/// An integer written in decimal, with a leading `-` when negative.
pub open spec fn decimal(n: int) -> Seq<char> {
    if n < 0 {
        seq!['-'] + digits((-n) as nat)
    } else {
        digits(n as nat)
    }
}

/// The text of one decimal digit.
fn digit_text(d: u32) -> (r: &'static str)
    requires
        d < 10,
    ensures
        r@ == seq![digit_char(d as nat)],
{
    match d {
        0 => {
            proof {
                reveal_strlit("0");
            }
            "0"
        },
        1 => {
            proof {
                reveal_strlit("1");
            }
            "1"
        },
        2 => {
            proof {
                reveal_strlit("2");
            }
            "2"
        },
        3 => {
            proof {
                reveal_strlit("3");
            }
            "3"
        },
        4 => {
            proof {
                reveal_strlit("4");
            }
            "4"
        },
        5 => {
            proof {
                reveal_strlit("5");
            }
            "5"
        },
        6 => {
            proof {
                reveal_strlit("6");
            }
            "6"
        },
        7 => {
            proof {
                reveal_strlit("7");
            }
            "7"
        },
        8 => {
            proof {
                reveal_strlit("8");
            }
            "8"
        },
        9 => {
            proof {
                reveal_strlit("9");
            }
            "9"
        },
        _ => {
            proof {
                reveal_strlit("9");
            }
            "9"
        },
    }
}

/// The decimal digits of a number.
fn digits_text(m: u32) -> (r: String)
    ensures
        r@ == digits(m as nat),
    decreases m,
{
    if m < 10 {
        let r = digit_text(m).to_string();
        assert(r@ =~= digits(m as nat));
        r
    } else {
        let mut s = digits_text(m / 10);
        s.append(digit_text(m % 10));
        assert(s@ =~= digits(m as nat));
        s
    }
}

/// An integer in decimal, with a `-` before a negative number.
fn i32_to_decimal(n: i32) -> (r: String)
    ensures
        r@ == decimal(n as int),
{
    if n < 0 {
        let m: u32 = (0i64 - n as i64) as u32;
        let mut s = "-".to_string();
        proof {
            reveal_strlit("-");
        }
        s.append(digits_text(m).as_str());
        assert(s@ =~= decimal(n as int));
        s
    } else {
        digits_text(n as u32)
    }
}

/// The key/value view of a context held as a list of pairs.
pub open spec fn pairs_view(v: Seq<(String, String)>) -> Seq<(Seq<char>, Seq<char>)> {
    v.map_values(|p: (String, String)| (p.0@, p.1@))
}

/// No key occurs twice.
pub open spec fn keys_unique(s: Seq<(Seq<char>, Seq<char>)>) -> bool {
    forall|i: int, j: int|
        0 <= i < s.len() && 0 <= j < s.len() && i != j ==> #[trigger] s[i].0 != #[trigger] s[j].0
}

/// The mapping that a list of pairs stands for; a later pair wins over an
/// earlier one with the same key.
pub open spec fn context_map(s: Seq<(Seq<char>, Seq<char>)>) -> Map<Seq<char>, Seq<char>>
    decreases s.len(),
{
    if s.len() == 0 {
        Map::empty()
    } else {
        context_map(s.drop_last()).insert(s.last().0, s.last().1)
    }
}

/// In a list with unique keys, each pair is an entry of its mapping, and
/// every key of the mapping comes from a pair.
proof fn lemma_context_map_entries(s: Seq<(Seq<char>, Seq<char>)>)
    requires
        keys_unique(s),
    ensures
        forall|i: int|
            0 <= i < s.len() ==> #[trigger] context_map(s).contains_key(s[i].0) && context_map(s)[s[i].0]
                == s[i].1,
        forall|k: Seq<char>|
            #[trigger] context_map(s).contains_key(k) ==> exists|i: int| 0 <= i < s.len() && s[i].0 == k,
    decreases s.len(),
{
    if s.len() > 0 {
        let t = s.drop_last();
        assert(keys_unique(t)) by {
            assert forall|i: int, j: int|
                0 <= i < t.len() && 0 <= j < t.len() && i != j implies #[trigger] t[i].0 != #[trigger] t[j].0 by {
                assert(t[i] == s[i] && t[j] == s[j]);
            }
        }
        lemma_context_map_entries(t);
        assert forall|i: int| 0 <= i < s.len() implies #[trigger] context_map(s).contains_key(s[i].0)
            && context_map(s)[s[i].0] == s[i].1 by {
            if i < s.len() - 1 {
                assert(t[i] == s[i]);
                assert(context_map(t).contains_key(t[i].0) && context_map(t)[t[i].0] == t[i].1);
                assert(s[i].0 != s[s.len() - 1].0);
            }
        }
        assert forall|k: Seq<char>| #[trigger] context_map(s).contains_key(k) implies exists|i: int|
            0 <= i < s.len() && s[i].0 == k by {
            if k != s.last().0 {
                assert(context_map(t).contains_key(k));
                let i = choose|i: int| 0 <= i < t.len() && t[i].0 == k;
                assert(s[i] == t[i]);
            }
        }
    }
}

/// Replacing the value of a key that a unique-keyed list holds is an insert
/// into its mapping.
proof fn lemma_context_map_update(s: Seq<(Seq<char>, Seq<char>)>, i: int, v: Seq<char>)
    requires
        keys_unique(s),
        0 <= i < s.len(),
    ensures
        keys_unique(s.update(i, (s[i].0, v))),
        context_map(s.update(i, (s[i].0, v))) == context_map(s).insert(s[i].0, v),
{
    let u = s.update(i, (s[i].0, v));
    assert(keys_unique(u)) by {
        assert forall|a: int, b: int|
            0 <= a < u.len() && 0 <= b < u.len() && a != b implies #[trigger] u[a].0 != #[trigger] u[b].0 by {
            assert(u[a].0 == s[a].0 && u[b].0 == s[b].0);
        }
    }
    lemma_context_map_entries(s);
    lemma_context_map_entries(u);
    let m = context_map(s).insert(s[i].0, v);
    assert forall|k: Seq<char>| #[trigger] context_map(u).contains_key(k) <==> m.contains_key(k) by {
        if context_map(u).contains_key(k) {
            let j = choose|j: int| 0 <= j < u.len() && u[j].0 == k;
            assert(u[j].0 == s[j].0);
            assert(context_map(s).contains_key(s[j].0));
        }
        if m.contains_key(k) && k != s[i].0 {
            let j = choose|j: int| 0 <= j < s.len() && s[j].0 == k;
            assert(u[j].0 == s[j].0);
            assert(context_map(u).contains_key(u[j].0));
        }
        if k == s[i].0 {
            assert(u[i].0 == k);
            assert(context_map(u).contains_key(u[i].0));
        }
    }
    assert forall|k: Seq<char>| #[trigger] context_map(u).contains_key(k) implies context_map(u)[k] == m[k] by {
        let j = choose|j: int| 0 <= j < u.len() && u[j].0 == k;
        assert(context_map(u)[u[j].0] == u[j].1);
        if j != i {
            assert(u[j] == s[j]);
            assert(context_map(s)[s[j].0] == s[j].1);
        }
    }
    assert(context_map(u) =~= m);
}

/// Sets `key` to `value` in a context list, replacing the value where the key
/// is already there.
pub fn context_put(ctx: &mut Vec<(String, String)>, key: String, value: String)
    requires
        keys_unique(pairs_view(old(ctx)@)),
    ensures
        keys_unique(pairs_view(final(ctx)@)),
        context_map(pairs_view(final(ctx)@)) == context_map(pairs_view(old(ctx)@)).insert(key@, value@),
{
    let ghost s0 = pairs_view(ctx@);
    let mut i: usize = 0;
    while i < ctx.len()
        invariant
            0 <= i <= ctx@.len(),
            ctx@ == old(ctx)@,
            s0 == pairs_view(ctx@),
            keys_unique(s0),
            forall|j: int| 0 <= j < i ==> s0[j].0 != key@,
        decreases ctx@.len() - i,
    {
        if ctx[i].0 == key {
            proof {
                lemma_context_map_update(s0, i as int, value@);
            }
            ctx.set(i, (key, value));
            assert(pairs_view(ctx@) =~= s0.update(i as int, (s0[i as int].0, value@)));
            return;
        }
        i = i + 1;
    }
    ctx.push((key, value));
    assert(pairs_view(ctx@).drop_last() =~= s0);
    assert(keys_unique(pairs_view(ctx@))) by {
        let s1 = pairs_view(ctx@);
        assert forall|a: int, b: int|
            0 <= a < s1.len() && 0 <= b < s1.len() && a != b implies #[trigger] s1[a].0 != #[trigger] s1[b].0 by {
            if a < s0.len() {
                assert(s1[a] == s0[a]);
            }
            if b < s0.len() {
                assert(s1[b] == s0[b]);
            }
        }
    }
}

} // verus!

verus! {

/// The wire record of a failure: a stable code, a human message, and an
/// optional flat context of key/value details.
#[derive(Debug)]
pub struct HttpError {
    pub code: ErrorCode,
    pub message: String,
    pub context: Option<Vec<(String, String)>>,
}

/// What an `HttpError` stands for: its code, its message, and the mapping
/// of its context.
pub struct HttpErrorView {
    pub code: (Seq<char>, u16),
    pub message: Seq<char>,
    pub context: Option<Map<Seq<char>, Seq<char>>>,
}

/// The mapping of a context, where there is one.
pub open spec fn context_view(c: Option<Vec<(String, String)>>) -> Option<Map<Seq<char>, Seq<char>>> {
    match c {
        Some(v) => Some(context_map(pairs_view(v@))),
        None => None,
    }
}

impl View for HttpError {
    type V = HttpErrorView;

    open spec fn view(&self) -> HttpErrorView {
        HttpErrorView { code: self.code@, message: self.message@, context: context_view(self.context) }
    }
}

impl HttpError {
    /// A valid status, and no context key twice.
    pub open spec fn wf(&self) -> bool {
        &&& self.code.wf()
        &&& match self.context {
            Some(v) => keys_unique(pairs_view(v@)),
            None => true,
        }
    }

    /// An owned copy of an error that is held behind a shared reference.
    pub fn from_ref(value: &HttpError) -> (r: HttpError)
        ensures
            r@ == value@,
            value.wf() ==> r.wf(),
            r.context is Some <==> value.context is Some,
            r.context is Some ==> pairs_view(r.context->Some_0@) == pairs_view(value.context->Some_0@),
    {
        let context = match &value.context {
            Some(v) => {
                let mut out: Vec<(String, String)> = Vec::new();
                let mut i: usize = 0;
                while i < v.len()
                    invariant
                        0 <= i <= v@.len(),
                        pairs_view(out@) =~= pairs_view(v@).subrange(0, i as int),
                    decreases v@.len() - i,
                {
                    let ghost before = out@;
                    let entry = (v[i].0.clone(), v[i].1.clone());
                    assert(entry.0@ == v@[i as int].0@ && entry.1@ == v@[i as int].1@);
                    out.push(entry);
                    assert(out@ == before.push(entry));
                    assert(pairs_view(out@) =~= pairs_view(before).push((entry.0@, entry.1@)));
                    i = i + 1;
                }
                assert(pairs_view(out@) =~= pairs_view(v@));
                Some(out)
            },
            None => None,
        };
        HttpError { code: value.code.duplicate(), message: value.message.clone(), context }
    }
}

/// Failures of the virtual filesystem, each with the filesystem's own
/// description of it.
#[derive(Debug)]
pub enum VfsErr {
    Domain(String),
    FileNotFound(String),
    SchemaFileNotFound(String),
    AbsolutePathNotSupported(String),
    DotPathsNotSupported(String),
    JsonErr(String),
    Io(String),
    Utf8(String),
    StripPrefixErr(String),
}

impl VfsErr {
    /// The declared code that a filesystem failure converts to.
    pub open spec fn known_code(&self) -> KnownCode {
        match self {
            VfsErr::Domain(_) => KnownCode::FsDomain,
            VfsErr::FileNotFound(_) => KnownCode::FsFileNotFound,
            VfsErr::SchemaFileNotFound(_) => KnownCode::FsSchemaFileNotFound,
            VfsErr::AbsolutePathNotSupported(_) => KnownCode::FsAbsolutePathNotSupported,
            VfsErr::DotPathsNotSupported(_) => KnownCode::FsDotPathsNotSupported,
            VfsErr::JsonErr(_) => KnownCode::JsonErr,
            VfsErr::Io(_) => KnownCode::FsIoError,
            VfsErr::Utf8(_) => KnownCode::InvalidUtf8,
            VfsErr::StripPrefixErr(_) => KnownCode::FsIoError,
        }
    }

    /// The description that the failure carries.
    pub open spec fn description(&self) -> Seq<char> {
        match self {
            VfsErr::Domain(m) => m@,
            VfsErr::FileNotFound(m) => m@,
            VfsErr::SchemaFileNotFound(m) => m@,
            VfsErr::AbsolutePathNotSupported(m) => m@,
            VfsErr::DotPathsNotSupported(m) => m@,
            VfsErr::JsonErr(m) => m@,
            VfsErr::Io(m) => m@,
            VfsErr::Utf8(m) => m@,
            VfsErr::StripPrefixErr(m) => m@,
        }
    }
}

/// What a filesystem failure converts to: its declared code, its own
/// description as the message, no context.
pub open spec fn vfs_converted(e: VfsErr) -> HttpErrorView {
    HttpErrorView { code: known(e.known_code()), message: e.description(), context: None }
}

impl HttpError {
    /// Converts a filesystem failure.
    pub fn from_vfs(value: VfsErr) -> (r: HttpError)
        ensures
            r@ == vfs_converted(value),
            r.wf(),
    {
        let (k, message) = match value {
            VfsErr::Domain(m) => (KnownCode::FsDomain, m),
            VfsErr::FileNotFound(m) => (KnownCode::FsFileNotFound, m),
            VfsErr::SchemaFileNotFound(m) => (KnownCode::FsSchemaFileNotFound, m),
            VfsErr::AbsolutePathNotSupported(m) => (KnownCode::FsAbsolutePathNotSupported, m),
            VfsErr::DotPathsNotSupported(m) => (KnownCode::FsDotPathsNotSupported, m),
            VfsErr::JsonErr(m) => (KnownCode::JsonErr, m),
            VfsErr::Io(m) => (KnownCode::FsIoError, m),
            VfsErr::Utf8(m) => (KnownCode::InvalidUtf8, m),
            VfsErr::StripPrefixErr(m) => (KnownCode::FsIoError, m),
        };
        HttpError { code: k.error_code(), message, context: None }
    }
}

} // verus!

verus! {

/// Prefix of the message of failures whose detail is internal.
pub const INTERNAL_ERROR_PREFIX: &'static str = "Internal error. ";

/// Message of a pipeline whose configuration has no steps.
pub const EMPTY_PIPELINE_MESSAGE: &'static str = "Server error, configured pipeline has no steps to execute.";

/// Message of a pipeline whose configuration repeats a sequence identifier.
pub const DUPLICATE_SEQ_ID_MESSAGE: &'static str = "Internal error.";

/// Context key of the failing character position of a script.
pub const CONTEXT_COLUMN: &'static str = "column";

/// Context key of the offending script excerpt.
pub const CONTEXT_SCRIPT: &'static str = "script";

/// Context key of the plugin that misbehaved.
pub const CONTEXT_PLUGIN: &'static str = "plugin";

/// Failures of the pipeline's script language.
#[derive(Debug)]
pub enum RapidScriptError {
    /// The script does not parse: a message, the failing position and the
    /// offending excerpt.
    SyntaxErr { msg: String, pos: i32, exp: String },
    EvalErr(String),
}

/// A context entry that a plugin reports: a key with one or more values.
#[derive(Debug)]
pub struct ContextEntry {
    pub key: String,
    pub value: Vec<String>,
}

/// A structured error that a plugin reports about itself.
#[derive(Debug)]
pub struct PluginError {
    pub code: String,
    pub status: i32,
    pub message: String,
    pub context: Vec<ContextEntry>,
}

/// Failures of pipeline execution. Failures of outside components
/// (JSON decoding, the container runtime and its transport, the plugin
/// channel, the filesystem) are held as their own description.
#[derive(Debug)]
pub enum PipelineError {
    RapidScript(RapidScriptError),
    UnsupportedProtocol(String),
    Json(String),
    BoaScript(String),
    Docker(String),
    DockerConn(String),
    /// A remote call ended with a status other than success: its outcome
    /// code and its description.
    PluginStatusErr(RemoteStatus, String),
    Vfs(String),
    EmptyPipeline,
    DuplicateSequenceId,
    PluginChannelErr(String),
    /// A plugin misbehaved: the message and the plugin's name.
    PluginErr(String, String),
    PluginSeqErr(PluginError),
}

/// A plugin reported a status number that is no HTTP status.
#[derive(Debug, Clone, Copy, PartialEq, Eq, Structural)]
pub struct InvalidPluginStatus {
    pub status: i32,
}

/// The first of a list of values, or the empty string where there is none.
pub open spec fn first_value(v: Seq<String>) -> Seq<char> {
    if v.len() > 0 {
        v[0]@
    } else {
        Seq::empty()
    }
}

/// A plugin's context flattened to one value per key: each key takes its
/// first value, and a later entry wins over an earlier one with the same key.
pub open spec fn flatten(entries: Seq<ContextEntry>) -> Map<Seq<char>, Seq<char>>
    decreases entries.len(),
{
    if entries.len() == 0 {
        Map::empty()
    } else {
        flatten(entries.drop_last()).insert(entries.last().key@, first_value(entries.last().value@))
    }
}

/// A record with a declared code, a message and no context.
pub open spec fn plain(code: (Seq<char>, u16), message: Seq<char>) -> HttpErrorView {
    HttpErrorView { code, message, context: None }
}

/// What a pipeline failure converts to; `None` for a plugin-reported error
/// whose status is no HTTP status.
pub open spec fn pipeline_converted(e: PipelineError) -> Option<HttpErrorView> {
    match e {
        PipelineError::RapidScript(RapidScriptError::SyntaxErr { msg, pos, exp }) => Some(
            HttpErrorView {
                code: known(KnownCode::RapidScriptSyntaxErr),
                message: msg@,
                context: Some(map![CONTEXT_COLUMN@ => decimal(pos as int), CONTEXT_SCRIPT@ => exp@]),
            },
        ),
        PipelineError::RapidScript(RapidScriptError::EvalErr(m)) => Some(
            plain(known(KnownCode::RapidScriptErr), m@),
        ),
        PipelineError::UnsupportedProtocol(m) => Some(plain(known(KnownCode::UnsupportedProtocol), m@)),
        PipelineError::Json(d) => Some(plain(known(KnownCode::JsonErr), d@)),
        PipelineError::BoaScript(m) => Some(plain(known(KnownCode::ScriptErr), m@)),
        PipelineError::Docker(d) => Some(plain(known(KnownCode::DockerErr), INTERNAL_ERROR_PREFIX@ + d@)),
        PipelineError::DockerConn(d) => Some(
            plain(known(KnownCode::DockerErr), INTERNAL_ERROR_PREFIX@ + d@),
        ),
        PipelineError::PluginStatusErr(s, d) => Some(plain(remote_code(s), INTERNAL_ERROR_PREFIX@ + d@)),
        PipelineError::Vfs(d) => Some(plain(known(KnownCode::FormFileErr), d@)),
        PipelineError::EmptyPipeline => Some(plain(known(KnownCode::PipelineEmpty), EMPTY_PIPELINE_MESSAGE@)),
        PipelineError::DuplicateSequenceId => Some(
            plain(known(KnownCode::PipelineDuplicateSeqId), DUPLICATE_SEQ_ID_MESSAGE@),
        ),
        PipelineError::PluginChannelErr(d) => Some(
            plain(known(KnownCode::PipelinePluginConnErr), INTERNAL_ERROR_PREFIX@ + d@),
        ),
        PipelineError::PluginErr(m, plugin) => Some(
            HttpErrorView {
                code: known(KnownCode::PipelinePluginBehaviour),
                message: m@,
                context: Some(map![CONTEXT_PLUGIN@ => plugin@]),
            },
        ),
        PipelineError::PluginSeqErr(p) => if valid_status(p.status as int) {
            Some(
                HttpErrorView {
                    code: (p.code@, p.status as u16),
                    message: p.message@,
                    context: Some(flatten(p.context@)),
                },
            )
        } else {
            None
        },
    }
}

/// `prefix` followed by `rest`.
fn joined(prefix: &str, rest: &str) -> (r: String)
    ensures
        r@ == prefix@ + rest@,
{
    let mut s = prefix.to_string();
    s.append(rest);
    s
}

/// A context of one entry.
fn single_context(key: &str, value: String) -> (r: Vec<(String, String)>)
    ensures
        keys_unique(pairs_view(r@)),
        context_map(pairs_view(r@)) == map![key@ => value@],
{
    let mut v: Vec<(String, String)> = Vec::new();
    context_put(&mut v, key.to_string(), value);
    assert(context_map(pairs_view(v@)) =~= map![key@ => value@]);
    v
}

/// Flattens a plugin's context entries to one value per key.
pub fn flatten_context(entries: &Vec<ContextEntry>) -> (r: Vec<(String, String)>)
    ensures
        keys_unique(pairs_view(r@)),
        context_map(pairs_view(r@)) == flatten(entries@),
{
    let mut out: Vec<(String, String)> = Vec::new();
    let mut i: usize = 0;
    assert(context_map(pairs_view(out@)) =~= flatten(entries@.subrange(0, 0)));
    while i < entries.len()
        invariant
            0 <= i <= entries@.len(),
            keys_unique(pairs_view(out@)),
            context_map(pairs_view(out@)) == flatten(entries@.subrange(0, i as int)),
        decreases entries@.len() - i,
    {
        let entry = &entries[i];
        let value = if entry.value.len() > 0 {
            entry.value[0].clone()
        } else {
            String::new()
        };
        context_put(&mut out, entry.key.clone(), value);
        assert(entries@.subrange(0, i + 1).drop_last() =~= entries@.subrange(0, i as int));
        i = i + 1;
    }
    assert(entries@.subrange(0, i as int) =~= entries@);
    out
}

impl HttpError {
    /// Converts a pipeline failure. Fails only on a plugin-reported error
    /// whose status is no HTTP status.
    pub fn from_pipeline(value: PipelineError) -> (r: Result<HttpError, InvalidPluginStatus>)
        ensures
            match r {
                Ok(h) => pipeline_converted(value) == Some(h@) && h.wf(),
                Err(x) => pipeline_converted(value) is None && (value matches PipelineError::PluginSeqErr(p)
                    && x.status == p.status),
            },
    {
        match value {
            PipelineError::RapidScript(RapidScriptError::SyntaxErr { msg, pos, exp }) => {
                let mut ctx: Vec<(String, String)> = Vec::new();
                context_put(&mut ctx, CONTEXT_COLUMN.to_string(), i32_to_decimal(pos));
                context_put(&mut ctx, CONTEXT_SCRIPT.to_string(), exp);
                let h = HttpError {
                    code: KnownCode::RapidScriptSyntaxErr.error_code(),
                    message: msg,
                    context: Some(ctx),
                };
                assert(h@.context->Some_0 =~= map![CONTEXT_COLUMN@ => decimal(pos as int), CONTEXT_SCRIPT@ => exp@]);
                Ok(h)
            },
            PipelineError::RapidScript(RapidScriptError::EvalErr(m)) => Ok(
                HttpError { code: KnownCode::RapidScriptErr.error_code(), message: m, context: None },
            ),
            PipelineError::UnsupportedProtocol(m) => Ok(
                HttpError { code: KnownCode::UnsupportedProtocol.error_code(), message: m, context: None },
            ),
            PipelineError::Json(d) => Ok(
                HttpError { code: KnownCode::JsonErr.error_code(), message: d, context: None },
            ),
            PipelineError::BoaScript(m) => Ok(
                HttpError { code: KnownCode::ScriptErr.error_code(), message: m, context: None },
            ),
            PipelineError::Docker(d) => Ok(
                HttpError {
                    code: KnownCode::DockerErr.error_code(),
                    message: joined(INTERNAL_ERROR_PREFIX, d.as_str()),
                    context: None,
                },
            ),
            PipelineError::DockerConn(d) => Ok(
                HttpError {
                    code: KnownCode::DockerErr.error_code(),
                    message: joined(INTERNAL_ERROR_PREFIX, d.as_str()),
                    context: None,
                },
            ),
            PipelineError::PluginStatusErr(s, d) => Ok(
                HttpError {
                    code: lookup(s),
                    message: joined(INTERNAL_ERROR_PREFIX, d.as_str()),
                    context: None,
                },
            ),
            PipelineError::Vfs(d) => Ok(
                HttpError { code: KnownCode::FormFileErr.error_code(), message: d, context: None },
            ),
            PipelineError::EmptyPipeline => Ok(
                HttpError {
                    code: KnownCode::PipelineEmpty.error_code(),
                    message: EMPTY_PIPELINE_MESSAGE.to_string(),
                    context: None,
                },
            ),
            PipelineError::DuplicateSequenceId => Ok(
                HttpError {
                    code: KnownCode::PipelineDuplicateSeqId.error_code(),
                    message: DUPLICATE_SEQ_ID_MESSAGE.to_string(),
                    context: None,
                },
            ),
            PipelineError::PluginChannelErr(d) => Ok(
                HttpError {
                    code: KnownCode::PipelinePluginConnErr.error_code(),
                    message: joined(INTERNAL_ERROR_PREFIX, d.as_str()),
                    context: None,
                },
            ),
            PipelineError::PluginErr(m, plugin) => Ok(
                HttpError {
                    code: KnownCode::PipelinePluginBehaviour.error_code(),
                    message: m,
                    context: Some(single_context(CONTEXT_PLUGIN, plugin)),
                },
            ),
            PipelineError::PluginSeqErr(p) => {
                match parse_status(p.status) {
                    Some(status) => {
                        let context = flatten_context(&p.context);
                        Ok(
                            HttpError {
                                code: ErrorCode { name: p.code, http_status: status },
                                message: p.message,
                                context: Some(context),
                            },
                        )
                    },
                    None => Err(InvalidPluginStatus { status: p.status }),
                }
            },
        }
    }
}

} // verus!

verus! {

/// Every filesystem failure converts to a declared code with a non-empty name.
pub proof fn lemma_vfs_code_registered(e: VfsErr)
    ensures
        registered(vfs_converted(e).code),
        vfs_converted(e).code.0.len() > 0,
{
    reveal_strlit("hypi_domain_not_found");
    reveal_strlit("hypi_file_not_found");
    reveal_strlit("hypi_schema_file_not_found");
    reveal_strlit("hypi_absolute_path_not_supported");
    reveal_strlit("hypi_dot_path_not_supported");
    reveal_strlit("hypi_json_err");
    reveal_strlit("hypi_io_error");
    reveal_strlit("hypi_invalid_utf8");
    assert(known(e.known_code()) == vfs_converted(e).code);
}

/// Every pipeline failure but a plugin's own report converts, and to a
/// declared code with a non-empty name.
pub proof fn lemma_pipeline_code_registered(e: PipelineError)
    requires
        !(e is PluginSeqErr),
    ensures
        pipeline_converted(e) is Some,
        registered(pipeline_converted(e)->Some_0.code),
        pipeline_converted(e)->Some_0.code.0.len() > 0,
{
    reveal_strlit("hypi_rapid_script_syntax_err");
    reveal_strlit("hypi_rapid_script_err");
    reveal_strlit("hypi_pipeline_unsupported_protocol");
    reveal_strlit("hypi_json_err");
    reveal_strlit("hypi_script_err");
    reveal_strlit("hypi_docker_err");
    reveal_strlit("hypi_form_file_err");
    reveal_strlit("hypi_pipeline_empty");
    reveal_strlit("hypi_pipeline_duplicate_seq_id");
    reveal_strlit("hypi_pipeline_plugin_conn_err");
    reveal_strlit("hypi_pipeline_bad_behaviour");
    let c = pipeline_converted(e)->Some_0.code;
    match e {
        PipelineError::RapidScript(RapidScriptError::SyntaxErr { .. }) => {
            assert(known(KnownCode::RapidScriptSyntaxErr) == c);
        },
        PipelineError::RapidScript(RapidScriptError::EvalErr(_)) => {
            assert(known(KnownCode::RapidScriptErr) == c);
        },
        PipelineError::UnsupportedProtocol(_) => {
            assert(known(KnownCode::UnsupportedProtocol) == c);
        },
        PipelineError::Json(_) => {
            assert(known(KnownCode::JsonErr) == c);
        },
        PipelineError::BoaScript(_) => {
            assert(known(KnownCode::ScriptErr) == c);
        },
        PipelineError::Docker(_) => {
            assert(known(KnownCode::DockerErr) == c);
        },
        PipelineError::DockerConn(_) => {
            assert(known(KnownCode::DockerErr) == c);
        },
        PipelineError::PluginStatusErr(s, _) => {
            lemma_remote_table(s, s);
        },
        PipelineError::Vfs(_) => {
            assert(known(KnownCode::FormFileErr) == c);
        },
        PipelineError::EmptyPipeline => {
            assert(known(KnownCode::PipelineEmpty) == c);
        },
        PipelineError::DuplicateSequenceId => {
            assert(known(KnownCode::PipelineDuplicateSeqId) == c);
        },
        PipelineError::PluginChannelErr(_) => {
            assert(known(KnownCode::PipelinePluginConnErr) == c);
        },
        PipelineError::PluginErr(_, _) => {
            assert(known(KnownCode::PipelinePluginBehaviour) == c);
        },
        PipelineError::PluginSeqErr(_) => {},
    }
}

} // verus!

verus! {

/// The text of a plugin-reported error: its status, code and message.
pub open spec fn plugin_error_text(p: PluginError) -> Seq<char> {
    "status:"@ + decimal(p.status as int) + ","@ + "code:"@ + p.code@ + ","@ + "message:"@ + p.message@ + ","@
}

impl PluginError {
    /// The error as text: `status:<status>,code:<code>,message:<message>,`.
    pub fn to_string(&self) -> (r: String)
        ensures
            r@ == plugin_error_text(*self),
    {
        let mut s = "status:".to_string();
        s.append(i32_to_decimal(self.status).as_str());
        s.append(",");
        s.append("code:");
        s.append(self.code.as_str());
        s.append(",");
        s.append("message:");
        s.append(self.message.as_str());
        s.append(",");
        s
    }
}

} // verus!
