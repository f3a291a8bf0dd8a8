//! Resource: user.

use vstd::prelude::*;
use crate::error::Error;
use crate::json::{array, empty_obj, empty_object, get_spec, lemma_get_first, obj1, obj2, Json, JsonV};
use crate::output::dispatch::Payload;
use crate::resources::common::{creates, deletes, fetches, gets, lists, removes, sends, shows_bag, updates, Call, CreateArgs, Crud, DeleteArgs, GetArgs, ListArgs, Plan, Show, UpdateArgs};
use crate::text::{concat, concat3};

verus! {

/// The `keygen user` subcommands.
#[derive(Debug)]
pub enum Cmd {
    List(ListArgs),
    Get(GetArgs),
    Create(CreateArgs),
    Update(UpdateArgs),
    Delete(DeleteArgs),
    /// Ban (block) a user.
    Ban { id: String },
    /// Lift a ban from a user.
    Unban { id: String },
    /// Send a password-reset email.
    ResetPassword { id: String },
    /// Set the user's password (admin only).
    UpdatePassword { id: String, old_password: Option<String>, new_password: Option<String> },
    /// Manage group membership for a user.
    Groups(UserGroupsCmd),
    /// List tokens scoped to the user.
    Tokens { id: String },
}

/// Nested subcommands of `keygen user groups`.
#[derive(Debug)]
pub enum UserGroupsCmd {
    Attach { id: String, group: String },
    Detach { id: String, group: String },
    List { id: String },
}

/// The CRUD surface of users.
pub fn crud() -> (c: Crud)
    ensures
        c.kind@ == "users"@,
        c.path@ == "/users"@,
{
    Crud::new("users", "/users")
}

/// `/users/<id>/<rest>`.
pub open spec fn user_path(id: Seq<char>, rest: Seq<char>) -> Seq<char> {
    "/users/"@ + id + "/"@ + rest
}

fn user_path_exec(id: &str, rest: &str) -> (r: String)
    ensures
        r@ == user_path(id@, rest@),
{
    let head = concat3("/users/", id, "/");
    concat(head.as_str(), rest)
}

/// The body of `update-password`: `{ "meta": { "newPassword", "oldPassword"? } }`.
pub open spec fn password_body(new: Seq<char>, old: Option<Seq<char>>) -> JsonV {
    JsonV::Object(
        seq![
            ("meta"@, JsonV::Object(match old {
                Some(o) => seq![("newPassword"@, JsonV::Str(new)), ("oldPassword"@, JsonV::Str(o))],
                None => seq![("newPassword"@, JsonV::Str(new))],
            })),
        ],
    )
}

/// The update-password body carries the `--new-password` value under
/// `meta.newPassword`, and the `--old-password` value under
/// `meta.oldPassword` exactly when one was given.
pub proof fn password_body_fields(new: Seq<char>, old: Option<Seq<char>>)
    ensures
        get_spec(password_body(new, old), "meta"@) matches Some(meta) && get_spec(meta, "newPassword"@)
            == Some(JsonV::Str(new)) && get_spec(meta, "oldPassword"@) == match old {
            Some(o) => Some(JsonV::Str(o)),
            None => None,
        },
{
    reveal_strlit("newPassword");
    reveal_strlit("oldPassword");
    assert("newPassword"@ != "oldPassword"@) by {
        assert("newPassword"@[0] != "oldPassword"@[0]);
    }
    let meta_entries = match old {
        Some(o) => seq![("newPassword"@, JsonV::Str(new)), ("oldPassword"@, JsonV::Str(o))],
        None => seq![("newPassword"@, JsonV::Str(new))],
    };
    let meta = JsonV::Object(meta_entries);
    lemma_get_first(seq![("meta"@, meta)], "meta"@, 0);
    lemma_get_first(meta_entries, "newPassword"@, 0);
    if old is Some {
        lemma_get_first(meta_entries, "oldPassword"@, 1);
    } else {
        assert(!exists|i: int| 0 <= i < meta_entries.len() && meta_entries[i].0 == "oldPassword"@);
    }
}

/// The request of an action endpoint: `POST /users/<id>/actions/<action>` with
/// an empty object.
pub open spec fn is_action(p: Plan, id: Seq<char>, action: Seq<char>) -> bool {
    &&& sends(p.call, user_path(id, "actions/"@ + action), empty_object())
    &&& p.show is ResponseSingle
}

fn action(id: &str, name: &str) -> (p: Plan)
    ensures
        is_action(p, id@, name@),
{
    let rest = concat("actions/", name);
    let path = user_path_exec(id, rest.as_str());
    Plan { call: Call::Send { path, body: empty_obj() }, show: Show::ResponseSingle }
}

/// What a `keygen user` command requests and shows.
pub open spec fn planned(cmd: Cmd, r: Result<Plan, Error>) -> bool {
    match cmd {
        Cmd::List(_) => r matches Ok(p) && lists(p.call, "/users"@) && p.show is ResponseList,
        Cmd::Get(args) => r matches Ok(p) && gets(p.call, "/users"@, args.id@) && p.show is ResponseSingle,
        Cmd::Create(_) => r matches Ok(p) && creates(p.call, "/users"@) && p.show is ResponseSingle,
        Cmd::Update(args) => r matches Ok(p) && updates(p.call, "/users"@, args.id@) && p.show is ResponseSingle,
        Cmd::Delete(args) => r matches Ok(p) && deletes(p.call, "/users"@, args.id@) && shows_bag(
            p.show,
            JsonV::Object(seq![("deleted"@, JsonV::Str(args.id@))]),
        ),
        Cmd::Ban { id } => r matches Ok(p) && is_action(p, id@, "ban"@),
        Cmd::Unban { id } => r matches Ok(p) && is_action(p, id@, "unban"@),
        Cmd::ResetPassword { id } => r matches Ok(p) && is_action(p, id@, "reset-password"@),
        Cmd::UpdatePassword { id, old_password, new_password } => match new_password {
            None => r matches Err(Error::User(m)) && m@
                == "--new-password is required (use a generator or pipe via stdin)"@,
            Some(new) => r matches Ok(p) && sends(
                p.call,
                user_path(id@, "actions/update-password"@),
                password_body(new@, crate::text::opt_view(old_password)),
            ) && p.show is ResponseSingle,
        },
        Cmd::Groups(UserGroupsCmd::List { id }) => r matches Ok(p) && fetches(
            p.call,
            user_path(id@, "groups"@),
        ) && p.show is ResponseList,
        Cmd::Groups(UserGroupsCmd::Attach { id, group }) => r matches Ok(p) && sends(
            p.call,
            user_path(id@, "groups"@),
            JsonV::Object(
                seq![
                    ("data"@, JsonV::Array(
                        seq![JsonV::Object(seq![("type"@, JsonV::Str("groups"@)), ("id"@, JsonV::Str(group@))])],
                    )),
                ],
            ),
        ) && shows_bag(
            p.show,
            JsonV::Object(seq![("attached"@, JsonV::Str(group@)), ("user"@, JsonV::Str(id@))]),
        ),
        Cmd::Groups(UserGroupsCmd::Detach { id, group }) => r matches Ok(p) && removes(
            p.call,
            user_path(id@, "groups/"@ + group@),
        ) && shows_bag(
            p.show,
            JsonV::Object(seq![("detached"@, JsonV::Str(group@)), ("user"@, JsonV::Str(id@))]),
        ),
        Cmd::Tokens { id } => r matches Ok(p) && fetches(p.call, user_path(id@, "tokens"@))
            && p.show is ResponseList,
    }
}

/// Plan a `keygen user` command.
pub fn dispatch(cmd: Cmd) -> (r: Result<Plan, Error>)
    ensures
        planned(cmd, r),
{
    match cmd {
        Cmd::List(args) => Ok(Plan { call: Call::List { crud: crud(), args }, show: Show::ResponseList }),
        Cmd::Get(args) => Ok(Plan { call: Call::Get { crud: crud(), args }, show: Show::ResponseSingle }),
        Cmd::Create(args) => Ok(Plan { call: Call::Create { crud: crud(), args }, show: Show::ResponseSingle }),
        Cmd::Update(args) => Ok(Plan { call: Call::Update { crud: crud(), args }, show: Show::ResponseSingle }),
        Cmd::Delete(args) => {
            let bag = obj1("deleted", Json::string(args.id.as_str()));
            Ok(Plan { call: Call::Delete { crud: crud(), args }, show: Show::Fixed(Payload::Bag(bag)) })
        },
        Cmd::Ban { id } => Ok(action(id.as_str(), "ban")),
        Cmd::Unban { id } => Ok(action(id.as_str(), "unban")),
        Cmd::ResetPassword { id } => Ok(action(id.as_str(), "reset-password")),
        Cmd::UpdatePassword { id, old_password, new_password } => {
            let new = match new_password {
                Some(n) => n,
                None => return Err(Error::user("--new-password is required (use a generator or pipe via stdin)")),
            };
            let meta = match old_password {
                Some(old) => obj2("newPassword", Json::Str(new), "oldPassword", Json::Str(old)),
                None => obj1("newPassword", Json::Str(new)),
            };
            let path = user_path_exec(id.as_str(), "actions/update-password");
            Ok(Plan { call: Call::Send { path, body: obj1("meta", meta) }, show: Show::ResponseSingle })
        },
        Cmd::Groups(UserGroupsCmd::List { id }) => {
            let path = user_path_exec(id.as_str(), "groups");
            Ok(Plan { call: Call::Fetch { path }, show: Show::ResponseList })
        },
        Cmd::Groups(UserGroupsCmd::Attach { id, group }) => {
            let path = user_path_exec(id.as_str(), "groups");
            let item = obj2("type", Json::string("groups"), "id", Json::string(group.as_str()));
            let items = array(vec![item]);
            proof {
                if let JsonV::Array(a) = items@ {
                    assert(a =~= seq![item@]);
                }
            }
            let body = obj1("data", items);
            let bag = obj2("attached", Json::Str(group), "user", Json::Str(id));
            Ok(Plan { call: Call::Send { path, body }, show: Show::Fixed(Payload::Bag(bag)) })
        },
        Cmd::Groups(UserGroupsCmd::Detach { id, group }) => {
            let rest = concat("groups/", group.as_str());
            let path = user_path_exec(id.as_str(), rest.as_str());
            let bag = obj2("detached", Json::Str(group), "user", Json::Str(id));
            Ok(Plan { call: Call::Remove { path }, show: Show::Fixed(Payload::Bag(bag)) })
        },
        Cmd::Tokens { id } => {
            let path = user_path_exec(id.as_str(), "tokens");
            Ok(Plan { call: Call::Fetch { path }, show: Show::ResponseList })
        },
    }
}

} // verus!
