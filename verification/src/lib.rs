//! Commands of the Roku External Control Protocol, their wire paths, and the
//! decisions behind discovering devices on the local network.

use vstd::prelude::*;
use reqwest::Url;
use crate::roku::{
    encode, wire_path, Apps, AppView, RokuCommand, RokuCommandView, TransportError,
    TransportErrorView,
};
use crate::weburl::{join_url, joined_text, url_text};

pub mod discovery;
pub mod markup;
pub mod query;
pub mod roku;
pub mod text;
pub mod weburl;

verus! {

/// The text of the URL that sends `command` to the device at `base`, or why
/// there is none.
pub open spec fn request_text(
    base: Seq<char>,
    command: RokuCommandView,
    catalog: Seq<AppView>,
) -> Result<Seq<char>, TransportErrorView> {
    if command is Discover {
        Err(TransportErrorView::NotSendable)
    } else {
        match wire_path(command, catalog) {
            Err(e) => Err(TransportErrorView::Encode(e)),
            Ok(path) => match joined_text(base, path) {
                Some(text) => Ok(text),
                None => Err(TransportErrorView::BadAddress),
            },
        }
    }
}

/// Joins the path of `command` to `base`. `Discover` is refused: no device
/// ever receives it.
pub fn urlify(base: &Url, command: &RokuCommand, catalog: &Apps) -> (r: Result<
    Url,
    TransportError,
>)
    ensures
        match r {
            Ok(url) => request_text(url_text(*base), command@, catalog@) == Ok::<
                Seq<char>,
                TransportErrorView,
            >(url_text(url)),
            Err(e) => request_text(url_text(*base), command@, catalog@) == Err::<
                Seq<char>,
                TransportErrorView,
            >(e@),
        },
{
    if let RokuCommand::Discover = command {
        return Err(TransportError::NotSendable);
    }
    let path = match encode(command, catalog) {
        Ok(path) => path,
        Err(e) => {
            return Err(TransportError::Encode(e));
        },
    };
    match join_url(base, path.as_str()) {
        Some(url) => Ok(url),
        None => Err(TransportError::BadAddress),
    }
}

/// The directory of the configuration below the home directory `home`:
/// `.config/joku`, after a `/` unless `home` is empty or ends in one.
pub open spec fn config_dir_text(home: Seq<char>) -> Seq<char> {
    if home.len() == 0 || home.last() == '/' {
        home + ".config/joku"@
    } else {
        home + "/.config/joku"@
    }
}

/// Where the directory of the `config.toml` file is located, given the home
/// directory.
pub fn config_path(home: &str) -> (r: String)
    ensures
        r@ == config_dir_text(home@),
{
    let chars = crate::text::chars_of(home);
    let mut path = home.to_owned();
    if chars.len() == 0 || chars[chars.len() - 1] == '/' {
        path.append(".config/joku");
    } else {
        path.append("/.config/joku");
    }
    path
}

/// Where the `config.toml` file is located, given the home directory.
pub fn config_file(home: &str) -> (r: String)
    ensures
        r@ == config_dir_text(home@) + "/config.toml"@,
{
    let mut file = config_path(home);
    file.append("/config.toml");
    file
}

} // verus!
