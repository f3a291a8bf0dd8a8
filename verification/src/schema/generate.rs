//! Describe the command tree as a stable JSON document: every command,
//! subcommand, positional, flag and enum value, plus the exit codes.
//!
//! The parser's own command tree is read into [`CommandInfo`] first; this
//! module only decides what the document says about it.

use vstd::prelude::*;
use crate::exit::{exit_code_of, ExitKind};
use crate::json::{array, obj3, Json, JsonV};
use crate::text::{decimal, to_decimal};

verus! {

/// How an argument consumes the command line.
#[derive(Debug, Clone, Copy, PartialEq, Eq, Structural)]
pub enum ActionKind {
    SetTrue,
    SetFalse,
    Count,
    Append,
    Other,
}

/// One argument of a command, as the parser defines it.
#[derive(Debug)]
pub struct ArgInfo {
    pub id: String,
    pub action: ActionKind,
    pub positional: bool,
    pub long: Option<String>,
    /// The short flag, as its one-character text.
    pub short: Option<String>,
    pub value_names: Vec<String>,
    pub required: bool,
    pub defaults: Vec<String>,
    pub help: Option<String>,
    pub long_help: Option<String>,
    pub possible_values: Vec<String>,
    pub env: Option<String>,
    pub global: bool,
}

/// One command with its arguments and subcommands.
#[derive(Debug)]
pub struct CommandInfo {
    pub name: String,
    pub about: Option<String>,
    pub long_about: Option<String>,
    pub args: Vec<ArgInfo>,
    pub subcommands: Vec<CommandInfo>,
}

/// The kind an argument is listed with.
pub open spec fn kind_text(action: ActionKind, positional: bool) -> Seq<char> {
    match action {
        ActionKind::SetTrue | ActionKind::SetFalse => "flag"@,
        ActionKind::Count => "counter"@,
        ActionKind::Append => "list"@,
        ActionKind::Other => if positional {
            "positional"@
        } else {
            "option"@
        },
    }
}

/// An optional text as JSON (`null` when absent).
pub open spec fn opt_text_json(s: Option<String>) -> JsonV {
    match s {
        Some(t) => JsonV::Str(t@),
        None => JsonV::Null,
    }
}

/// Texts as a JSON array of strings.
pub open spec fn texts_json(v: Seq<String>) -> JsonV {
    JsonV::Array(Seq::new(v.len(), |i: int| JsonV::Str(v[i]@)))
}

/// The first of some texts, or `null`.
pub open spec fn first_text(v: Seq<String>) -> JsonV {
    if v.len() > 0 {
        JsonV::Str(v[0]@)
    } else {
        JsonV::Null
    }
}

/// The description of one argument.
pub open spec fn arg_json(a: ArgInfo) -> JsonV {
    JsonV::Object(
        seq![
            ("name"@, JsonV::Str(a.id@)),
            ("long"@, opt_text_json(a.long)),
            ("short"@, opt_text_json(a.short)),
            ("value_name"@, first_text(a.value_names@)),
            ("kind"@, JsonV::Str(kind_text(a.action, a.positional))),
            ("required"@, JsonV::Bool(a.required)),
            ("default"@, texts_json(a.defaults@)),
            ("help"@, opt_text_json(a.help)),
            ("long_help"@, opt_text_json(a.long_help)),
            ("possible_values"@, texts_json(a.possible_values@)),
            ("env"@, opt_text_json(a.env)),
            ("global"@, JsonV::Bool(a.global)),
        ],
    )
}

/// The description of a command and, recursively, of its subcommands.
pub open spec fn command_json(c: CommandInfo) -> JsonV
    decreases c,
{
    JsonV::Object(
        seq![
            ("name"@, JsonV::Str(c.name@)),
            ("about"@, opt_text_json(c.about)),
            ("long_about"@, opt_text_json(c.long_about)),
            ("args"@, JsonV::Array(Seq::new(c.args@.len(), |i: int| arg_json(c.args@[i])))),
            (
                "subcommands"@,
                JsonV::Array(
                    Seq::new(
                        c.subcommands@.len(),
                        |i: int|
                            if 0 <= i < c.subcommands@.len() {
                                proof {
                                    assert(decreases_to!(c => c.subcommands));
                                    assert(decreases_to!(c.subcommands => c.subcommands@));
                                    assert(decreases_to!(c.subcommands@ => c.subcommands@[i]));
                                }
                                command_json(c.subcommands@[i])
                            } else {
                                JsonV::Null
                            },
                    ),
                ),
            ),
        ],
    )
}

/// The exit kinds in the order the schema lists them.
pub open spec fn listed_kinds() -> Seq<ExitKind> {
    seq![
        ExitKind::Success,
        ExitKind::UserError,
        ExitKind::ServerError,
        ExitKind::NetworkError,
        ExitKind::AuthError,
        ExitKind::Capability,
    ]
}

/// The name of an exit kind in the schema.
pub open spec fn kind_name(k: ExitKind) -> Seq<char> {
    match k {
        ExitKind::Success => "ok"@,
        ExitKind::UserError => "user_error"@,
        ExitKind::ServerError => "server_error"@,
        ExitKind::NetworkError => "network_error"@,
        ExitKind::AuthError => "auth_error"@,
        ExitKind::Capability => "capability"@,
    }
}

/// What an exit kind means.
pub open spec fn kind_meaning(k: ExitKind) -> Seq<char> {
    match k {
        ExitKind::Success => "command succeeded"@,
        ExitKind::UserError => "user supplied bad input or hit a 4xx (non-401/403)"@,
        ExitKind::ServerError => "keygen returned 5xx"@,
        ExitKind::NetworkError => "request failed before a response arrived"@,
        ExitKind::AuthError => "token missing / invalid (401 / 403)"@,
        ExitKind::Capability => "command not supported on this deployment"@,
    }
}

/// The schema entry of an exit kind: its process status, name and meaning.
pub open spec fn exit_entry_json(k: ExitKind) -> JsonV {
    JsonV::Object(
        seq![
            ("code"@, JsonV::Number(decimal(exit_code_of(k) as nat))),
            ("name"@, JsonV::Str(kind_name(k))),
            ("meaning"@, JsonV::Str(kind_meaning(k))),
        ],
    )
}

/// The exit-code table of the schema.
pub open spec fn exit_codes_json() -> JsonV {
    JsonV::Array(Seq::new(listed_kinds().len(), |i: int| exit_entry_json(listed_kinds()[i])))
}

/// The whole schema document.
pub open spec fn dump_json(root: CommandInfo, version: Seq<char>) -> JsonV {
    JsonV::Object(
        seq![
            ("ok"@, JsonV::Bool(true)),
            (
                "data"@,
                JsonV::Object(
                    seq![
                        ("version"@, JsonV::Str(version)),
                        ("binary"@, JsonV::Str(root.name@)),
                        ("exit_codes"@, exit_codes_json()),
                        ("command"@, command_json(root)),
                    ],
                ),
            ),
        ],
    )
}

fn opt_text(s: &Option<String>) -> (r: Json)
    ensures
        r@ == opt_text_json(*s),
{
    match s {
        Some(t) => Json::string(t.as_str()),
        None => Json::Null,
    }
}

fn texts(v: &Vec<String>) -> (r: Json)
    ensures
        r@ == texts_json(v@),
{
    let n = v.len();
    let mut out: Vec<Json> = Vec::new();
    let mut i: usize = 0;
    while i < n
        invariant
            n == v@.len(),
            i <= n,
            out@.len() == i,
            forall|k: int| 0 <= k < i ==> #[trigger] out@[k]@ == JsonV::Str(v@[k]@),
        decreases n - i,
    {
        out.push(Json::string(v[i].as_str()));
        i = i + 1;
    }
    let ghost items = out@;
    let r = array(out);
    assert(Seq::new(items.len(), |k: int| items[k]@) =~= Seq::new(v@.len(), |k: int| JsonV::Str(v@[k]@)));
    r
}

fn kind_json(action: ActionKind, positional: bool) -> (r: Json)
    ensures
        r@ == JsonV::Str(kind_text(action, positional)),
{
    match action {
        ActionKind::SetTrue | ActionKind::SetFalse => Json::string("flag"),
        ActionKind::Count => Json::string("counter"),
        ActionKind::Append => Json::string("list"),
        ActionKind::Other => if positional {
            Json::string("positional")
        } else {
            Json::string("option")
        },
    }
}

fn members_of(m: &Vec<(String, Json)>) -> (r: Json)
    ensures
        r@ == JsonV::Object(Seq::new(m@.len(), |i: int| (m@[i].0@, m@[i].1@))),
{
    let mut copy: Vec<(String, Json)> = Vec::new();
    let n = m.len();
    let mut i: usize = 0;
    while i < n
        invariant
            n == m@.len(),
            i <= n,
            copy@.len() == i,
            forall|k: int| 0 <= k < i ==> #[trigger] copy@[k].0@ == m@[k].0@ && copy@[k].1@ == m@[k].1@,
        decreases n - i,
    {
        copy.push((crate::text::copy_str(&m[i].0), m[i].1.deep_copy()));
        i = i + 1;
    }
    let ghost c = copy@;
    let r = crate::json::object(copy);
    assert(Seq::new(c.len(), |i: int| (c[i].0@, c[i].1@)) =~= Seq::new(m@.len(), |i: int| (m@[i].0@, m@[i].1@)));
    r
}

/// The description of one argument: its name, flags, kind, defaults, help,
/// possible values and environment variable.
pub fn describe_arg(arg: &ArgInfo) -> (r: Json)
    ensures
        r@ == arg_json(*arg),
{
    let value_name = if arg.value_names.len() > 0 {
        Json::string(arg.value_names[0].as_str())
    } else {
        Json::Null
    };
    let m: Vec<(String, Json)> = vec![
        (String::from_str("name"), Json::string(arg.id.as_str())),
        (String::from_str("long"), opt_text(&arg.long)),
        (String::from_str("short"), opt_text(&arg.short)),
        (String::from_str("value_name"), value_name),
        (String::from_str("kind"), kind_json(arg.action, arg.positional)),
        (String::from_str("required"), Json::Bool(arg.required)),
        (String::from_str("default"), texts(&arg.defaults)),
        (String::from_str("help"), opt_text(&arg.help)),
        (String::from_str("long_help"), opt_text(&arg.long_help)),
        (String::from_str("possible_values"), texts(&arg.possible_values)),
        (String::from_str("env"), opt_text(&arg.env)),
        (String::from_str("global"), Json::Bool(arg.global)),
    ];
    let r = members_of(&m);
    assert(Seq::new(m@.len(), |i: int| (m@[i].0@, m@[i].1@)) =~= arg_json(*arg)->Object_0);
    r
}

/// The description of a command: its name, about texts, arguments and,
/// recursively, subcommands.
pub fn describe(cmd: &CommandInfo) -> (r: Json)
    ensures
        r@ == command_json(*cmd),
    decreases cmd,
{
    let ns = cmd.subcommands.len();
    let mut subs: Vec<Json> = Vec::new();
    let mut i: usize = 0;
    while i < ns
        invariant
            ns == cmd.subcommands@.len(),
            i <= ns,
            subs@.len() == i,
            forall|k: int| 0 <= k < i ==> #[trigger] subs@[k]@ == command_json(cmd.subcommands@[k]),
        decreases ns - i,
    {
        proof {
            assert(decreases_to!(*cmd => cmd.subcommands));
            assert(decreases_to!(cmd.subcommands => cmd.subcommands@));
            assert(decreases_to!(cmd.subcommands@ => cmd.subcommands@[i as int]));
        }
        subs.push(describe(&cmd.subcommands[i]));
        i = i + 1;
    }
    let na = cmd.args.len();
    let mut args: Vec<Json> = Vec::new();
    let mut j: usize = 0;
    while j < na
        invariant
            na == cmd.args@.len(),
            j <= na,
            args@.len() == j,
            forall|k: int| 0 <= k < j ==> #[trigger] args@[k]@ == arg_json(cmd.args@[k]),
        decreases na - j,
    {
        args.push(describe_arg(&cmd.args[j]));
        j = j + 1;
    }
    let ghost sv = subs@;
    let ghost av = args@;
    let subs_json = array(subs);
    let args_json = array(args);
    assert(Seq::new(sv.len(), |k: int| sv[k]@) =~= command_json(*cmd)->Object_0[4].1->Array_0);
    assert(Seq::new(av.len(), |k: int| av[k]@) =~= command_json(*cmd)->Object_0[3].1->Array_0);
    let m: Vec<(String, Json)> = vec![
        (String::from_str("name"), Json::string(cmd.name.as_str())),
        (String::from_str("about"), opt_text(&cmd.about)),
        (String::from_str("long_about"), opt_text(&cmd.long_about)),
        (String::from_str("args"), args_json),
        (String::from_str("subcommands"), subs_json),
    ];
    let r = members_of(&m);
    assert(Seq::new(m@.len(), |i: int| (m@[i].0@, m@[i].1@)) =~= command_json(*cmd)->Object_0);
    r
}

fn exit_entry(k: ExitKind, name: &str, meaning: &str) -> (r: Json)
    requires
        name@ == kind_name(k),
        meaning@ == kind_meaning(k),
    ensures
        r@ == exit_entry_json(k),
{
    obj3(
        "code",
        Json::Number(to_decimal(k.code() as u64)),
        "name",
        Json::string(name),
        "meaning",
        Json::string(meaning),
    )
}

/// The exit-code table: every exit kind with its process status, name and
/// meaning, in status order.
pub fn exit_codes() -> (r: Json)
    ensures
        r@ == exit_codes_json(),
{
    proof {
        reveal_strlit("ok");
        reveal_strlit("user_error");
        reveal_strlit("server_error");
        reveal_strlit("network_error");
        reveal_strlit("auth_error");
        reveal_strlit("capability");
    }
    let v: Vec<Json> = vec![
        exit_entry(ExitKind::Success, "ok", "command succeeded"),
        exit_entry(
            ExitKind::UserError,
            "user_error",
            "user supplied bad input or hit a 4xx (non-401/403)",
        ),
        exit_entry(ExitKind::ServerError, "server_error", "keygen returned 5xx"),
        exit_entry(
            ExitKind::NetworkError,
            "network_error",
            "request failed before a response arrived",
        ),
        exit_entry(ExitKind::AuthError, "auth_error", "token missing / invalid (401 / 403)"),
        exit_entry(ExitKind::Capability, "capability", "command not supported on this deployment"),
    ];
    let ghost vv = v@;
    let r = array(v);
    assert(Seq::new(vv.len(), |i: int| vv[i]@) =~= exit_codes_json()->Array_0);
    r
}

/// The whole schema document: `{ ok, data: { version, binary, exit_codes,
/// command } }`.
pub fn dump(root: &CommandInfo, version: &str) -> (r: Json)
    ensures
        r@ == dump_json(*root, version@),
{
    let m: Vec<(String, Json)> = vec![
        (String::from_str("version"), Json::string(version)),
        (String::from_str("binary"), Json::string(root.name.as_str())),
        (String::from_str("exit_codes"), exit_codes()),
        (String::from_str("command"), describe(root)),
    ];
    let data = members_of(&m);
    assert(Seq::new(m@.len(), |i: int| (m@[i].0@, m@[i].1@)) =~= dump_json(*root, version@)->Object_0[1].1->Object_0);
    crate::json::obj2("ok", Json::Bool(true), "data", data)
}

/// Each exit kind is listed once, in the schema's exit-code table, with the
/// status the process exits with for it.
pub proof fn schema_lists_exit_codes(k: ExitKind)
    ensures
        exists|i: int|
            0 <= i < listed_kinds().len() && #[trigger] listed_kinds()[i] == k && exit_codes_json()->Array_0[i]
                == exit_entry_json(k),
        exit_entry_json(k)->Object_0[0].1 == JsonV::Number(decimal(exit_code_of(k) as nat)),
{
    let i: int = match k {
        ExitKind::Success => 0,
        ExitKind::UserError => 1,
        ExitKind::ServerError => 2,
        ExitKind::NetworkError => 3,
        ExitKind::AuthError => 4,
        ExitKind::Capability => 5,
    };
    assert(listed_kinds()[i] == k);
}

} // verus!
