//! Roku commands and the paths that carry them to a device.

use vstd::prelude::*;
use crate::markup::text_of;
use crate::query::{pairs_view, query_string, query_text};
use crate::text::{
    find_unique, first_index, lowercase, occurrences, occurrences_counted, texts, to_lower, Found,
};
use crate::weburl::{parse_url, parsed_text, query_pairs, query_pairs_of, url_text};
use crate::{request_text, urlify};
use reqwest::Url;

verus! {

/// The commands of the External Control Protocol that this crate knows.
#[derive(Debug, Clone)]
pub enum RokuCommand {
    /// Discover Roku devices on the network. No device ever receives it.
    Discover,
    Home,
    Play,
    Pause,
    Select,
    Left,
    Right,
    Down,
    Up,
    Back,
    VolumeUp,
    VolumeDown,
    Mute,
    PowerOff,
    /// Search through the protocol's search API.
    Search(SearchParams),
    /// Launches a Roku app.
    Launch(LaunchParams),
    DeviceInfo,
    ListApps,
}

/// The params for a search query. Only the keyword is required.
#[derive(Debug, Clone)]
pub struct SearchParams {
    pub keyword: String,
    /// Sent under the key `type`.
    pub kind: Option<String>,
    pub title: Option<String>,
    pub season: Option<String>,
    pub launch: Option<bool>,
    pub provider: Option<String>,
    pub provider_id: Option<String>,
}

/// The app to launch, by name, and optionally a link to what it shall show.
#[derive(Debug, Clone)]
pub struct LaunchParams {
    pub app: String,
    pub link: Option<String>,
}

/// One app that a device has listed.
#[derive(Debug, Clone)]
pub struct App {
    pub id: String,
    /// Listed under the attribute `type`.
    pub kind: String,
    pub version: String,
    pub name: String,
}

/// The apps that a device has listed.
#[derive(Debug, Clone)]
pub struct Apps {
    pub apps: Vec<App>,
}

/// Why a command has no path.
#[derive(Debug, Clone, PartialEq, Eq)]
pub enum EncodeError {
    /// A search without a keyword.
    EmptyKeyword,
    /// No listed app has this name.
    UnknownApp(String),
    /// This many listed apps have this name.
    AmbiguousApp(String, usize),
    /// A link was given and no content identifier can be read from it.
    InvalidContentIdentifier,
}

/// A search as texts.
pub ghost struct SearchParamsView {
    pub keyword: Seq<char>,
    pub kind: Option<Seq<char>>,
    pub title: Option<Seq<char>>,
    pub season: Option<Seq<char>>,
    pub launch: Option<bool>,
    pub provider: Option<Seq<char>>,
    pub provider_id: Option<Seq<char>>,
}

/// Launch params as texts.
pub ghost struct LaunchParamsView {
    pub app: Seq<char>,
    pub link: Option<Seq<char>>,
}

/// A listed app as texts.
pub ghost struct AppView {
    pub id: Seq<char>,
    pub kind: Seq<char>,
    pub version: Seq<char>,
    pub name: Seq<char>,
}

/// A command, its params as texts.
pub ghost enum RokuCommandView {
    Discover,
    Home,
    Play,
    Pause,
    Select,
    Left,
    Right,
    Down,
    Up,
    Back,
    VolumeUp,
    VolumeDown,
    Mute,
    PowerOff,
    Search(SearchParamsView),
    Launch(LaunchParamsView),
    DeviceInfo,
    ListApps,
}

/// An encoding error, its name as text and its count as a number.
pub ghost enum EncodeErrorView {
    EmptyKeyword,
    UnknownApp(Seq<char>),
    AmbiguousApp(Seq<char>, nat),
    InvalidContentIdentifier,
}

impl View for SearchParams {
    type V = SearchParamsView;

    open spec fn view(&self) -> SearchParamsView {
        SearchParamsView {
            keyword: self.keyword@,
            kind: text_of(self.kind),
            title: text_of(self.title),
            season: text_of(self.season),
            launch: self.launch,
            provider: text_of(self.provider),
            provider_id: text_of(self.provider_id),
        }
    }
}

impl View for LaunchParams {
    type V = LaunchParamsView;

    open spec fn view(&self) -> LaunchParamsView {
        LaunchParamsView { app: self.app@, link: text_of(self.link) }
    }
}

impl View for App {
    type V = AppView;

    open spec fn view(&self) -> AppView {
        AppView { id: self.id@, kind: self.kind@, version: self.version@, name: self.name@ }
    }
}

impl View for Apps {
    type V = Seq<AppView>;

    open spec fn view(&self) -> Seq<AppView> {
        self.apps@.map_values(|a: App| a@)
    }
}

impl View for RokuCommand {
    type V = RokuCommandView;

    open spec fn view(&self) -> RokuCommandView {
        match self {
            RokuCommand::Discover => RokuCommandView::Discover,
            RokuCommand::Home => RokuCommandView::Home,
            RokuCommand::Play => RokuCommandView::Play,
            RokuCommand::Pause => RokuCommandView::Pause,
            RokuCommand::Select => RokuCommandView::Select,
            RokuCommand::Left => RokuCommandView::Left,
            RokuCommand::Right => RokuCommandView::Right,
            RokuCommand::Down => RokuCommandView::Down,
            RokuCommand::Up => RokuCommandView::Up,
            RokuCommand::Back => RokuCommandView::Back,
            RokuCommand::VolumeUp => RokuCommandView::VolumeUp,
            RokuCommand::VolumeDown => RokuCommandView::VolumeDown,
            RokuCommand::Mute => RokuCommandView::Mute,
            RokuCommand::PowerOff => RokuCommandView::PowerOff,
            RokuCommand::Search(p) => RokuCommandView::Search(p@),
            RokuCommand::Launch(p) => RokuCommandView::Launch(p@),
            RokuCommand::DeviceInfo => RokuCommandView::DeviceInfo,
            RokuCommand::ListApps => RokuCommandView::ListApps,
        }
    }
}

impl View for EncodeError {
    type V = EncodeErrorView;

    open spec fn view(&self) -> EncodeErrorView {
        match self {
            EncodeError::EmptyKeyword => EncodeErrorView::EmptyKeyword,
            EncodeError::UnknownApp(name) => EncodeErrorView::UnknownApp(name@),
            EncodeError::AmbiguousApp(name, count) => EncodeErrorView::AmbiguousApp(
                name@,
                *count as nat,
            ),
            EncodeError::InvalidContentIdentifier => EncodeErrorView::InvalidContentIdentifier,
        }
    }
}

/// The names of the catalog, each in lowercase.
pub open spec fn lowered_names(catalog: Seq<AppView>) -> Seq<Seq<char>> {
    catalog.map_values(|a: AppView| lowercase(a.name))
}

/// Whether a listed app goes by `name`, whatever the case of either.
pub open spec fn matches_name(app: AppView, name: Seq<char>) -> bool {
    lowercase(app.name) == lowercase(name)
}

/// How many apps of the catalog go by `name`.
pub open spec fn match_count(catalog: Seq<AppView>, name: Seq<char>) -> nat {
    occurrences(lowered_names(catalog), lowercase(name))
}

/// The one app that goes by `name`; an error where none does or several do.
pub open spec fn resolved(catalog: Seq<AppView>, name: Seq<char>) -> Result<
    AppView,
    EncodeErrorView,
> {
    let n = match_count(catalog, name);
    if n == 0 {
        Err(EncodeErrorView::UnknownApp(name))
    } else if n == 1 {
        Ok(catalog[first_index(lowered_names(catalog), lowercase(name))])
    } else {
        Err(EncodeErrorView::AmbiguousApp(name, n))
    }
}

impl Apps {
    /// Looks `name` up among the listed apps, without regard to case. Exactly
    /// one app must go by it.
    pub fn resolve(&self, name: &str) -> (r: Result<&App, EncodeError>)
        ensures
            match r {
                Ok(app) => resolved(self@, name@) == Ok::<AppView, EncodeErrorView>(app@),
                Err(e) => resolved(self@, name@) == Err::<AppView, EncodeErrorView>(e@),
            },
    {
        let wanted = to_lower(name);
        let mut names: Vec<String> = Vec::new();
        let mut i: usize = 0;
        while i < self.apps.len()
            invariant
                i <= self.apps@.len(),
                names@.len() == i,
                texts(names@) == lowered_names(self@.take(i as int)),
            decreases self.apps@.len() - i,
        {
            let ghost before = names@;
            let lower = to_lower(self.apps[i].name.as_str());
            names.push(lower);
            proof {
                let next = lowered_names(self@.take(i + 1));
                assert(self@.take(i + 1)[i as int] == self.apps@[i as int]@);
                assert(names@.len() == i + 1 && next.len() == i + 1);
                assert forall|k: int| 0 <= k < next.len() implies texts(names@)[k] == next[k] by {
                    if k < i {
                        assert(names@[k] == before[k]);
                        assert(texts(before)[k] == lowered_names(self@.take(i as int))[k]);
                        assert(self@.take(i as int)[k] == self@.take(i + 1)[k]);
                    } else {
                        assert(names@[k] == lower);
                    }
                }
                assert(texts(names@) =~= next);
            }
            i += 1;
        }
        proof {
            assert(self@.take(i as int) =~= self@);
        }
        match find_unique(&names, wanted.as_str()) {
            Found::Nothing => Err(EncodeError::UnknownApp(name.to_owned())),
            Found::One(at) => Ok(&self.apps[at]),
            Found::Several(count) => Err(EncodeError::AmbiguousApp(name.to_owned(), count)),
        }
    }
}

/// The value of the last pair named `key`, where there is one.
pub open spec fn last_value(pairs: Seq<(Seq<char>, Seq<char>)>, key: Seq<char>) -> Option<
    Seq<char>,
>
    decreases pairs.len(),
{
    if pairs.len() == 0 {
        None
    } else if pairs.last().0 == key {
        Some(pairs.last().1)
    } else {
        last_value(pairs.drop_last(), key)
    }
}

/// Whether a listed app is YouTube, whatever the case of its name.
pub open spec fn is_youtube(app: AppView) -> bool {
    lowercase(app.name) == "youtube"@
}

/// The path of an app with the content that a link's query names under `v`.
pub open spec fn linked_path(id: Seq<char>, pairs: Seq<(Seq<char>, Seq<char>)>) -> Result<
    Seq<char>,
    EncodeErrorView,
> {
    match last_value(pairs, "v"@) {
        Some(content) => Ok(id + "?contentId="@ + content),
        None => Err(EncodeErrorView::InvalidContentIdentifier),
    }
}

/// What follows `launch/` for a listed app: its id, and where a link is
/// given, the content that the link names. Only YouTube links are understood.
pub open spec fn launch_path(app: AppView, link: Option<Seq<char>>) -> Result<
    Seq<char>,
    EncodeErrorView,
> {
    match link {
        None => Ok(app.id),
        Some(l) => if is_youtube(app) {
            match parsed_text(l) {
                Some(u) => linked_path(app.id, query_pairs_of(u)),
                None => Err(EncodeErrorView::InvalidContentIdentifier),
            }
        } else {
            Err(EncodeErrorView::InvalidContentIdentifier)
        },
    }
}

/// What follows `launch/` for launch params against a catalog.
pub open spec fn launch_target(p: LaunchParamsView, catalog: Seq<AppView>) -> Result<
    Seq<char>,
    EncodeErrorView,
> {
    match resolved(catalog, p.app) {
        Ok(app) => launch_path(app, p.link),
        Err(e) => Err(e),
    }
}

/// The text of a path, or the view of the error in its place.
pub open spec fn path_view(r: Result<String, EncodeError>) -> Result<Seq<char>, EncodeErrorView> {
    match r {
        Ok(p) => Ok(p@),
        Err(e) => Err(e@),
    }
}

/// The value that the last pair named `v` holds: the content identifier of a
/// YouTube link.
pub fn content_id(pairs: &Vec<(String, String)>) -> (r: Option<String>)
    ensures
        text_of(r) == last_value(pairs_view(pairs@), "v"@),
{
    let key = "v".to_owned();
    let mut i: usize = pairs.len();
    proof {
        assert(pairs_view(pairs@).take(i as int) =~= pairs_view(pairs@));
    }
    while i > 0
        invariant
            i <= pairs@.len(),
            key@ == "v"@,
            last_value(pairs_view(pairs@).take(i as int), "v"@) == last_value(
                pairs_view(pairs@),
                "v"@,
            ),
        decreases i,
    {
        let ghost seen = pairs_view(pairs@).take(i as int);
        proof {
            assert(seen.drop_last() =~= pairs_view(pairs@).take(i - 1));
            assert(seen.last() == (pairs@[i - 1].0@, pairs@[i - 1].1@));
        }
        i -= 1;
        if pairs[i].0 == key {
            return Some(pairs[i].1.clone());
        }
    }
    None
}

/// The apps whose links this crate can read.
#[derive(Debug, Clone)]
pub enum RokuApp {
    /// The YouTube application with its application ID.
    YouTube(String),
}

impl RokuApp {
    /// The handler for a listed app, where the crate has one.
    pub fn try_from(value: &App) -> (r: Option<RokuApp>)
        ensures
            match r {
                Some(RokuApp::YouTube(id)) => is_youtube(value@) && id@ == value.id@,
                None => !is_youtube(value@),
            },
    {
        let lower = to_lower(value.name.as_str());
        if lower == "youtube".to_owned() {
            Some(RokuApp::YouTube(value.id.clone()))
        } else {
            None
        }
    }

    /// The application ID.
    pub open spec fn id(&self) -> Seq<char> {
        match self {
            RokuApp::YouTube(id) => id@,
        }
    }

    /// The path of this app with the content that the query pairs of a link
    /// name.
    pub fn link_path(&self, pairs: &Vec<(String, String)>) -> (r: Result<String, EncodeError>)
        ensures
            path_view(r) == linked_path(self.id(), pairs_view(pairs@)),
    {
        match self {
            RokuApp::YouTube(id) => match content_id(pairs) {
                Some(content) => {
                    let mut path = id.clone();
                    path.append("?contentId=");
                    path.append(content.as_str());
                    Ok(path)
                },
                None => Err(EncodeError::InvalidContentIdentifier),
            },
        }
    }
}

impl LaunchParams {
    /// What follows `launch/` in the path of these params: the id of the one
    /// listed app that goes by the name, and the content of the link where
    /// one is given.
    pub fn path(&self, catalog: &Apps) -> (r: Result<String, EncodeError>)
        ensures
            path_view(r) == launch_target(self@, catalog@),
    {
        let app = match catalog.resolve(self.app.as_str()) {
            Ok(app) => app,
            Err(e) => {
                return Err(e);
            },
        };
        match &self.link {
            None => Ok(app.id.clone()),
            Some(link) => match RokuApp::try_from(app) {
                Some(handler) => match parse_url(link.as_str()) {
                    Some(url) => {
                        let pairs = query_pairs(&url);
                        handler.link_path(&pairs)
                    },
                    None => Err(EncodeError::InvalidContentIdentifier),
                },
                None => Err(EncodeError::InvalidContentIdentifier),
            },
        }
    }
}

/// The pair that an optional value contributes: none where it is absent.
pub open spec fn opt_pair(key: Seq<char>, value: Option<Seq<char>>) -> Seq<
    (Seq<char>, Seq<char>),
> {
    match value {
        Some(v) => seq![(key, v)],
        None => Seq::empty(),
    }
}

/// How a flag is written in a query.
pub open spec fn flag_text(flag: bool) -> Seq<char> {
    if flag {
        "true"@
    } else {
        "false"@
    }
}

/// The flag of an optional flag, as text.
pub open spec fn opt_flag_text(flag: Option<bool>) -> Option<Seq<char>> {
    match flag {
        Some(b) => Some(flag_text(b)),
        None => None,
    }
}

/// The pairs of a search, in the order in which they are sent. An absent
/// value has no pair.
pub open spec fn search_pairs(p: SearchParamsView) -> Seq<(Seq<char>, Seq<char>)> {
    seq![("keyword"@, p.keyword)] + opt_pair("type"@, p.kind) + opt_pair("title"@, p.title)
        + opt_pair("season"@, p.season) + opt_pair("launch"@, opt_flag_text(p.launch))
        + opt_pair("provider"@, p.provider) + opt_pair("provider_id"@, p.provider_id)
}

/// The path of a command: a fixed text for the plain commands, the query of
/// a search, the target of a launch. `Discover` has the empty path.
pub open spec fn wire_path(command: RokuCommandView, catalog: Seq<AppView>) -> Result<
    Seq<char>,
    EncodeErrorView,
> {
    match command {
        RokuCommandView::Discover => Ok(Seq::empty()),
        RokuCommandView::Home => Ok("keypress/Home"@),
        RokuCommandView::Play => Ok("keypress/Play"@),
        RokuCommandView::Pause => Ok("keypress/Pause"@),
        RokuCommandView::Select => Ok("keypress/Select"@),
        RokuCommandView::Left => Ok("keypress/Left"@),
        RokuCommandView::Right => Ok("keypress/Right"@),
        RokuCommandView::Down => Ok("keypress/Down"@),
        RokuCommandView::Up => Ok("keypress/Up"@),
        RokuCommandView::Back => Ok("keypress/Back"@),
        RokuCommandView::VolumeUp => Ok("keypress/VolumeUp"@),
        RokuCommandView::VolumeDown => Ok("keypress/VolumeDown"@),
        RokuCommandView::Mute => Ok("keypress/Mute"@),
        RokuCommandView::PowerOff => Ok("keypress/PowerOff"@),
        RokuCommandView::Search(p) => if p.keyword.len() == 0 {
            Err(EncodeErrorView::EmptyKeyword)
        } else {
            Ok("search/browse?"@ + query_text(search_pairs(p)))
        },
        RokuCommandView::Launch(p) => match launch_target(p, catalog) {
            Ok(target) => Ok("launch/"@ + target),
            Err(e) => Err(e),
        },
        RokuCommandView::DeviceInfo => Ok("query/device-info"@),
        RokuCommandView::ListApps => Ok("query/apps"@),
    }
}

fn push_pair(pairs: &mut Vec<(String, String)>, key: &str, value: &Option<String>)
    ensures
        pairs_view(final(pairs)@) == pairs_view(old(pairs)@) + opt_pair(key@, text_of(*value)),
{
    match value {
        Some(v) => {
            pairs.push((key.to_owned(), v.clone()));
            assert(pairs_view(pairs@) =~= pairs_view(old(pairs)@) + seq![(key@, v@)]);
        },
        None => {
            assert(pairs_view(pairs@) =~= pairs_view(old(pairs)@) + Seq::empty());
        },
    }
}

impl SearchParams {
    /// The pairs that this search sends, in order.
    pub fn pairs(&self) -> (r: Vec<(String, String)>)
        ensures
            pairs_view(r@) == search_pairs(self@),
    {
        let mut pairs: Vec<(String, String)> = Vec::new();
        pairs.push(("keyword".to_owned(), self.keyword.clone()));
        assert(pairs_view(pairs@) =~= seq![("keyword"@, self.keyword@)]);
        push_pair(&mut pairs, "type", &self.kind);
        push_pair(&mut pairs, "title", &self.title);
        push_pair(&mut pairs, "season", &self.season);
        let launch = match self.launch {
            Some(true) => Some("true".to_owned()),
            Some(false) => Some("false".to_owned()),
            None => None,
        };
        push_pair(&mut pairs, "launch", &launch);
        push_pair(&mut pairs, "provider", &self.provider);
        push_pair(&mut pairs, "provider_id", &self.provider_id);
        pairs
    }
}

fn fixed(path: &str) -> (r: Result<String, EncodeError>)
    ensures
        path_view(r) == Ok::<Seq<char>, EncodeErrorView>(path@),
{
    Ok(path.to_owned())
}

/// Encodes a command as the path of its request, without scheme or host.
/// A launch is resolved against `catalog`, the apps that the device listed.
///
/// `Discover` is no command of a device: its path is empty, and the caller
/// keeps it off the wire.
pub fn encode(command: &RokuCommand, catalog: &Apps) -> (r: Result<String, EncodeError>)
    ensures
        path_view(r) == wire_path(command@, catalog@),
{
    match command {
        RokuCommand::Discover => {
            let path = String::new();
            Ok(path)
        },
        RokuCommand::Home => fixed("keypress/Home"),
        RokuCommand::Play => fixed("keypress/Play"),
        RokuCommand::Pause => fixed("keypress/Pause"),
        RokuCommand::Select => fixed("keypress/Select"),
        RokuCommand::Left => fixed("keypress/Left"),
        RokuCommand::Right => fixed("keypress/Right"),
        RokuCommand::Down => fixed("keypress/Down"),
        RokuCommand::Up => fixed("keypress/Up"),
        RokuCommand::Back => fixed("keypress/Back"),
        RokuCommand::VolumeUp => fixed("keypress/VolumeUp"),
        RokuCommand::VolumeDown => fixed("keypress/VolumeDown"),
        RokuCommand::Mute => fixed("keypress/Mute"),
        RokuCommand::PowerOff => fixed("keypress/PowerOff"),
        RokuCommand::Search(params) => {
            if params.keyword.as_str().is_empty() {
                return Err(EncodeError::EmptyKeyword);
            }
            let pairs = params.pairs();
            let query = query_string(&pairs);
            let mut path = "search/browse?".to_owned();
            path.append(query.as_str());
            Ok(path)
        },
        RokuCommand::Launch(params) => match params.path(catalog) {
            Ok(target) => {
                let mut path = "launch/".to_owned();
                path.append(target.as_str());
                Ok(path)
            },
            Err(e) => Err(e),
        },
        RokuCommand::DeviceInfo => fixed("query/device-info"),
        RokuCommand::ListApps => fixed("query/apps"),
    }
}

/// Represents the Roku device that commands are sent to.
#[derive(Debug, Clone)]
pub struct RokuDevice {
    pub name: String,
    /// The socket address of the device, as text: host, colon, port.
    pub addr: String,
}

/// A device as texts.
pub ghost struct RokuDeviceView {
    pub name: Seq<char>,
    pub addr: Seq<char>,
}

impl View for RokuDevice {
    type V = RokuDeviceView;

    open spec fn view(&self) -> RokuDeviceView {
        RokuDeviceView { name: self.name@, addr: self.addr@ }
    }
}

impl RokuDevice {
    /// How the device is shown to a person: by its name.
    pub fn label(&self) -> (r: String)
        ensures
            r@ == self.name@,
    {
        self.name.clone()
    }

    /// The base of every request to the device: `http://` and its address.
    pub fn base_url(&self) -> (r: String)
        ensures
            r@ == "http://"@ + self.addr@,
    {
        let mut base = "http://".to_owned();
        base.append(self.addr.as_str());
        base
    }
}

/// What is kept between runs: the chosen device and the apps it listed.
#[derive(Debug, Clone)]
pub struct Config {
    pub device: RokuDevice,
    pub apps: Vec<App>,
}

/// The two request methods of the protocol.
#[derive(Debug, Clone, Copy, PartialEq, Eq, Structural)]
pub enum HttpMethod {
    Get,
    Post,
}

/// The method that a command is sent with: `Get` for the two queries, `Post`
/// for everything that controls the device.
pub open spec fn method_of(command: RokuCommandView) -> HttpMethod {
    match command {
        RokuCommandView::DeviceInfo => HttpMethod::Get,
        RokuCommandView::ListApps => HttpMethod::Get,
        _ => HttpMethod::Post,
    }
}

/// The method that `command` is sent with.
pub fn method_for(command: &RokuCommand) -> (m: HttpMethod)
    ensures
        m == method_of(command@),
{
    match command {
        RokuCommand::DeviceInfo => HttpMethod::Get,
        RokuCommand::ListApps => HttpMethod::Get,
        _ => HttpMethod::Post,
    }
}

/// Why a command did not reach a device, or what the device made of it.
#[derive(Debug, Clone, PartialEq, Eq)]
pub enum TransportError {
    /// The command has no path.
    Encode(EncodeError),
    /// `Discover` is never sent to a device.
    NotSendable,
    /// The base address is no URL, or the path cannot be joined to it.
    BadAddress,
    /// The request failed on the network.
    Network,
    /// The device answered with this status, which is no success.
    Status(u16),
}

/// A transport error over the view of the encoding error.
pub ghost enum TransportErrorView {
    Encode(EncodeErrorView),
    NotSendable,
    BadAddress,
    Network,
    Status(u16),
}

impl View for TransportError {
    type V = TransportErrorView;

    open spec fn view(&self) -> TransportErrorView {
        match self {
            TransportError::Encode(e) => TransportErrorView::Encode(e@),
            TransportError::NotSendable => TransportErrorView::NotSendable,
            TransportError::BadAddress => TransportErrorView::BadAddress,
            TransportError::Network => TransportErrorView::Network,
            TransportError::Status(code) => TransportErrorView::Status(*code),
        }
    }
}

/// Whether a status is a success: 200 to 299.
pub open spec fn is_success(status: u16) -> bool {
    200 <= status <= 299
}

/// Judges the status of an answer: any success passes, anything else is
/// reported with its code.
pub fn check_status(status: u16) -> (r: Result<(), TransportError>)
    ensures
        is_success(status) ==> r is Ok,
        !is_success(status) ==> r == Err::<(), TransportError>(TransportError::Status(status)),
{
    if 200 <= status && status <= 299 {
        Ok(())
    } else {
        Err(TransportError::Status(status))
    }
}

/// Encapsulates sending commands to the Roku device
pub struct RokuClient {
    base: Url,
}

impl RokuClient {
    /// The text of the base URL.
    pub closed spec fn base_text(&self) -> Seq<char> {
        url_text(self.base)
    }

    pub fn new(base: Url) -> (r: Self)
        ensures
            r.base_text() == url_text(base),
    {
        Self { base }
    }

    /// Creates a new `RokuClient` for the device of `config`.
    pub fn try_from_config(config: &Config) -> (r: Result<Self, TransportError>)
        ensures
            match r {
                Ok(client) => parsed_text("http://"@ + config.device.addr@) == Some(
                    client.base_text(),
                ),
                Err(e) => e == TransportError::BadAddress && parsed_text(
                    "http://"@ + config.device.addr@,
                ) is None,
            },
    {
        let text = config.device.base_url();
        match parse_url(text.as_str()) {
            Some(base) => Ok(Self::new(base)),
            None => Err(TransportError::BadAddress),
        }
    }

    /// The method and the URL of the request that sends `command` to the
    /// device.
    pub fn request(&self, command: &RokuCommand, catalog: &Apps) -> (r: Result<
        (HttpMethod, Url),
        TransportError,
    >)
        ensures
            match r {
                Ok((method, url)) => method == method_of(command@) && request_text(
                    self.base_text(),
                    command@,
                    catalog@,
                ) == Ok::<Seq<char>, TransportErrorView>(url_text(url)),
                Err(e) => request_text(self.base_text(), command@, catalog@) == Err::<
                    Seq<char>,
                    TransportErrorView,
                >(e@),
            },
    {
        match urlify(&self.base, command, catalog) {
            Ok(url) => Ok((method_for(command), url)),
            Err(e) => Err(e),
        }
    }

    pub fn base(&self) -> (r: &Url)
        ensures
            url_text(*r) == self.base_text(),
    {
        &self.base
    }
}

/// Encoding is a function of the command and the catalog: whatever two runs
/// on the same values return, it is the same path or the same error.
pub proof fn encode_is_repeatable(
    command: RokuCommand,
    catalog: Apps,
    first: Result<String, EncodeError>,
    second: Result<String, EncodeError>,
)
    requires
        path_view(first) == wire_path(command@, catalog@),
        path_view(second) == wire_path(command@, catalog@),
    ensures
        path_view(first) == path_view(second),
        first is Ok ==> second is Ok && first->Ok_0@ == second->Ok_0@,
        first is Err ==> second is Err && first->Err_0@ == second->Err_0@,
{
}

/// What a resolution says of the catalog: a resolved app is listed, goes by
/// the name, and is the only one that does; an unknown name is that of no
/// listed app; an ambiguous one is that of two listed apps at least, and the
/// error counts them.
pub proof fn resolved_is_the_only_match(catalog: Seq<AppView>, name: Seq<char>)
    ensures
        match resolved(catalog, name) {
            Ok(app) => exists|i: int|
                0 <= i < catalog.len() && #[trigger] catalog[i] == app && matches_name(app, name)
                    && forall|j: int|
                    0 <= j < catalog.len() && matches_name(#[trigger] catalog[j], name) ==> j
                        == i,
            Err(EncodeErrorView::UnknownApp(n)) => n == name && forall|j: int|
                0 <= j < catalog.len() ==> !matches_name(#[trigger] catalog[j], name),
            Err(EncodeErrorView::AmbiguousApp(n, count)) => n == name && count == match_count(
                catalog,
                name,
            ) && exists|i: int, j: int|
                0 <= i < j < catalog.len() && matches_name(#[trigger] catalog[i], name)
                    && matches_name(#[trigger] catalog[j], name),
            Err(_) => false,
        },
{
    let names = lowered_names(catalog);
    let wanted = lowercase(name);
    occurrences_counted(names, wanted);
    assert forall|j: int| 0 <= j < catalog.len() implies (matches_name(
        #[trigger] catalog[j],
        name,
    ) <==> names[j] == wanted) by {}
    let n = occurrences(names, wanted);
    if n == 1 {
        let i = first_index(names, wanted);
        assert(matches_name(catalog[i], name));
        assert forall|j: int|
            0 <= j < catalog.len() && matches_name(#[trigger] catalog[j], name) implies j == i by {
            assert(names[j] == wanted);
        }
    } else if n >= 2 {
        let (i, j) = choose|i: int, j: int|
            0 <= i < j < names.len() && #[trigger] names[i] == wanted && #[trigger] names[j]
                == wanted;
        assert(matches_name(catalog[i], name) && matches_name(catalog[j], name));
    } else {
        assert forall|j: int| 0 <= j < catalog.len() implies !matches_name(
            #[trigger] catalog[j],
            name,
        ) by {
            assert(names[j] != wanted);
        }
    }
}

/// A search sends no pair for a value that it does not hold, and its first
/// pair is the keyword.
pub proof fn absent_values_send_no_pair(p: SearchParamsView)
    ensures
        search_pairs(p)[0] == ("keyword"@, p.keyword),
        forall|i: int|
            #![trigger search_pairs(p)[i]]
            0 <= i < search_pairs(p).len() ==> {
                let key = search_pairs(p)[i].0;
                &&& (key == "type"@ ==> p.kind is Some)
                &&& (key == "title"@ ==> p.title is Some)
                &&& (key == "season"@ ==> p.season is Some)
                &&& (key == "launch"@ ==> p.launch is Some)
                &&& (key == "provider"@ ==> p.provider is Some)
                &&& (key == "provider_id"@ ==> p.provider_id is Some)
            },
{
    reveal_strlit("keyword");
    reveal_strlit("type");
    reveal_strlit("title");
    reveal_strlit("season");
    reveal_strlit("launch");
    reveal_strlit("provider");
    reveal_strlit("provider_id");
    let a = seq![("keyword"@, p.keyword)];
    let b = a + opt_pair("type"@, p.kind);
    let c = b + opt_pair("title"@, p.title);
    let d = c + opt_pair("season"@, p.season);
    let e = d + opt_pair("launch"@, opt_flag_text(p.launch));
    let f = e + opt_pair("provider"@, p.provider);
    let g = f + opt_pair("provider_id"@, p.provider_id);
    assert(keys_from(a, p));
    assert(keys_from(b, p));
    assert(keys_from(c, p));
    assert(keys_from(d, p));
    assert(keys_from(e, p));
    assert(keys_from(f, p));
    assert(keys_from(g, p));
    assert(g == search_pairs(p));
    assert("season"@[0] == 's' && "launch"@[0] == 'l');
    assert("keyword"@.len() == 7 && "type"@.len() == 4 && "title"@.len() == 5);
    assert("season"@.len() == 6 && "launch"@.len() == 6);
    assert("provider"@.len() == 8 && "provider_id"@.len() == 11);
    assert forall|i: int| 0 <= i < g.len() implies {
        let key = (#[trigger] g[i]).0;
        &&& (key == "type"@ ==> p.kind is Some)
        &&& (key == "title"@ ==> p.title is Some)
        &&& (key == "season"@ ==> p.season is Some)
        &&& (key == "launch"@ ==> p.launch is Some)
        &&& (key == "provider"@ ==> p.provider is Some)
        &&& (key == "provider_id"@ ==> p.provider_id is Some)
    } by {
        assert(key_from(g[i].0, p));
    }
}

spec fn key_from(key: Seq<char>, p: SearchParamsView) -> bool {
    ||| key == "keyword"@
    ||| (key == "type"@ && p.kind is Some)
    ||| (key == "title"@ && p.title is Some)
    ||| (key == "season"@ && p.season is Some)
    ||| (key == "launch"@ && p.launch is Some)
    ||| (key == "provider"@ && p.provider is Some)
    ||| (key == "provider_id"@ && p.provider_id is Some)
}

spec fn keys_from(pairs: Seq<(Seq<char>, Seq<char>)>, p: SearchParamsView) -> bool {
    forall|i: int| 0 <= i < pairs.len() ==> key_from((#[trigger] pairs[i]).0, p)
}

} // verus!
