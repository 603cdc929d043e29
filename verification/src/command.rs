//! The command's surface as announced to the host: its name, help line,
//! category, and the named flags it accepts.

use vstd::prelude::*;

verus! {

/// The kind of value a flag accepts, as announced to the host.
#[derive(Clone, Copy, Debug, PartialEq, Eq)]
pub enum FlagShape {
    Text,
    Path,
    Duration,
}

/// One named flag of the command's surface: its long name, optional
/// short name, value kind, and help text.
pub struct FlagSpec {
    pub long: String,
    pub short: Option<char>,
    pub shape: FlagShape,
    pub description: String,
}

/// The command's surface: name, help line, category, and the named
/// flags it accepts. The command takes no positional arguments.
pub struct CommandSignature {
    pub name: String,
    pub usage: String,
    pub category: String,
    pub flags: Vec<FlagSpec>,
}

fn flag_spec(long: &str, short: Option<char>, shape: FlagShape, description: &str) -> (r: FlagSpec)
    ensures
        r.long@ == long@,
        r.short == short,
        r.shape == shape,
        r.description@ == description@,
{
    FlagSpec { long: long.to_owned(), short, shape, description: description.to_owned() }
}

/// The one command this library describes: `notify`, experimental, with
/// five textual flags and one duration flag.
pub fn command_signature() -> (r: CommandSignature)
    ensures
        r.name@ == "notify"@,
        r.usage@ == "sends notification with given parameters"@,
        r.category@ == "experimental"@,
        r.flags@.len() == 6,
        r.flags@[0].long@ == "summary"@ && r.flags@[0].short == Some('s') && r.flags@[0].shape
            == FlagShape::Text && r.flags@[0].description@ == "summary of the notification"@,
        r.flags@[1].long@ == "body"@ && r.flags@[1].short == Some('t') && r.flags@[1].shape
            == FlagShape::Text && r.flags@[1].description@ == "body of the notification"@,
        r.flags@[2].long@ == "subtitle"@ && r.flags@[2].short is None && r.flags@[2].shape
            == FlagShape::Text && r.flags@[2].description@
            == "subtitle of the notification [macOS only]"@,
        r.flags@[3].long@ == "app-name"@ && r.flags@[3].short == Some('a') && r.flags@[3].shape
            == FlagShape::Text && r.flags@[3].description@ == "app name of the notification"@,
        r.flags@[4].long@ == "icon"@ && r.flags@[4].short == Some('i') && r.flags@[4].shape
            == FlagShape::Path && r.flags@[4].description@
            == "path to the icon of the notification"@,
        r.flags@[5].long@ == "timeout"@ && r.flags@[5].short is None && r.flags@[5].shape
            == FlagShape::Duration && r.flags@[5].description@
            == "duration of the notification [XDG Desktops only] (defaults to system default)"@,
{
    let mut flags: Vec<FlagSpec> = Vec::new();
    flags.push(flag_spec("summary", Some('s'), FlagShape::Text, "summary of the notification"));
    flags.push(flag_spec("body", Some('t'), FlagShape::Text, "body of the notification"));
    flags.push(
        flag_spec("subtitle", None, FlagShape::Text, "subtitle of the notification [macOS only]"),
    );
    flags.push(flag_spec("app-name", Some('a'), FlagShape::Text, "app name of the notification"));
    flags.push(
        flag_spec("icon", Some('i'), FlagShape::Path, "path to the icon of the notification"),
    );
    flags.push(
        flag_spec(
            "timeout",
            None,
            FlagShape::Duration,
            "duration of the notification [XDG Desktops only] (defaults to system default)",
        ),
    );
    CommandSignature {
        name: "notify".to_owned(),
        usage: "sends notification with given parameters".to_owned(),
        category: "experimental".to_owned(),
        flags,
    }
}

} // verus!
