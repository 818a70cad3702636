use vstd::prelude::*;
use crate::gui::context::ContextManager;
use crate::gui::controller::commits::sel;
use crate::gui::keys::{is_char, Key, KeyCode};
use crate::gui::popup::{Command, InputCommand, Popup};
use crate::model::Model;

verus! {

/// Asks for the name of a new tag.
pub fn create_tag() -> (p: Popup)
    ensures
        p matches Popup::Input { title, buffer, on_confirm: InputCommand::CreateTag }
            && title@ == "New tag name"@ && buffer@.len() == 0,
{
    Popup::Input {
        title: String::from_str("New tag name"),
        buffer: String::new(),
        on_confirm: InputCommand::CreateTag,
    }
}

/// `<prefix>'<name>'<suffix>`
pub open spec fn quoted(prefix: Seq<char>, name: Seq<char>, suffix: Seq<char>) -> Seq<char> {
    prefix + "'"@ + name + "'"@ + suffix
}

fn quoted_of(prefix: &str, name: &String, suffix: &str) -> (r: String)
    ensures
        r@ == quoted(prefix@, name@, suffix@),
{
    let mut r = String::from_str(prefix);
    r.append("'");
    r.append(name.as_str());
    r.append("'");
    r.append(suffix);
    r
}

/// Asks to delete the selected tag.
pub fn delete_tag(ctx: &ContextManager, model: &Model) -> (p: Option<Popup>)
    ensures
        sel(ctx) >= model.tags@.len() ==> p is None,
        sel(ctx) < model.tags@.len() ==> (p matches Some(
            Popup::Confirm { title, message, on_confirm: Command::DeleteTag(n) },
        ) && title@ == "Delete tag"@ && message@ == quoted(
            "Delete tag "@,
            model.tags@[sel(ctx)].name@,
            "?"@,
        ) && n@ == model.tags@[sel(ctx)].name@),
{
    let selected = ctx.selected_active();
    if selected < model.tags.len() {
        let name = &model.tags[selected].name;
        Some(
            Popup::Confirm {
                title: String::from_str("Delete tag"),
                message: quoted_of("Delete tag ", name, "?"),
                on_confirm: Command::DeleteTag(name.clone()),
            },
        )
    } else {
        None
    }
}

/// Asks to push the selected tag to `origin`.
pub fn push_tag(ctx: &ContextManager, model: &Model) -> (p: Option<Popup>)
    ensures
        sel(ctx) >= model.tags@.len() ==> p is None,
        sel(ctx) < model.tags@.len() ==> (p matches Some(
            Popup::Confirm { title, message, on_confirm: Command::PushTag(n) },
        ) && title@ == "Push tag"@ && message@ == quoted(
            "Push tag "@,
            model.tags@[sel(ctx)].name@,
            " to origin?"@,
        ) && n@ == model.tags@[sel(ctx)].name@),
{
    let selected = ctx.selected_active();
    if selected < model.tags.len() {
        let name = &model.tags[selected].name;
        Some(
            Popup::Confirm {
                title: String::from_str("Push tag"),
                message: quoted_of("Push tag ", name, " to origin?"),
                on_confirm: Command::PushTag(name.clone()),
            },
        )
    } else {
        None
    }
}

/// Commands of the tags panel.
#[derive(Debug, Clone, Copy, PartialEq, Eq, Structural)]
pub enum TagsKey {
    Create,
    Delete,
    Push,
    Ignore,
}

/// `n` creates, `d` deletes, `P` pushes.
pub fn handle_key(key: &Key) -> (r: TagsKey)
    ensures
        r == (if is_char(*key, 'n') {
            TagsKey::Create
        } else if is_char(*key, 'd') {
            TagsKey::Delete
        } else if is_char(*key, 'P') {
            TagsKey::Push
        } else {
            TagsKey::Ignore
        }),
{
    if key.code == KeyCode::Char('n') {
        TagsKey::Create
    } else if key.code == KeyCode::Char('d') {
        TagsKey::Delete
    } else if key.code == KeyCode::Char('P') {
        TagsKey::Push
    } else {
        TagsKey::Ignore
    }
}

} // verus!
