//! The board fetcher's side of a run: what a board address names, how many images the
//! fetcher's listing holds, how the fetcher is told to download, and which staged files
//! belong to a board.
//!
//! Running the fetcher and reading the staging directory is the caller's work; the
//! functions here take what came back.

use vstd::prelude::*;
use crate::error::ErrorKind;
use crate::json::{
    element, items_of, json_in_bytes, json_of, jsons_of, member, parse_bytes, text_of, Json,
};
use crate::text::{
    chars_of, contains, contains_chars, lemma_split_nonempty, same_chars, split, split_chars,
    starts_with, starts_with_chars, string_from, string_texts, texts,
};

verus! {

/// The program that fetches boards.
pub const FETCHER: &'static str = "gallery-dl";

/// The directory that the fetcher downloads into.
pub const STAGING_DIR: &'static str = "data";

/// The owner and name of a board, and the section of it that an address points at.
#[derive(Debug, Clone, PartialEq, Eq)]
pub struct PinterestInfo {
    username: String,
    board_name: String,
    section: Option<String>,
}

/// What a [`PinterestInfo`] says, as plain text.
pub struct BoardAddress {
    pub username: Seq<char>,
    pub board_name: Seq<char>,
    pub section: Option<Seq<char>>,
}

impl View for PinterestInfo {
    type V = BoardAddress;

    closed spec fn view(&self) -> BoardAddress {
        BoardAddress {
            username: self.username@,
            board_name: self.board_name@,
            section: match self.section {
                Some(s) => Some(s@),
                None => None,
            },
        }
    }
}

/// A failure of the board fetcher's side.
#[derive(Debug, Clone, PartialEq, Eq)]
pub enum BoardError {
    /// The fetcher could not look at the board.
    ProbeFailed,
    /// The address names no owner and board.
    UnparsableUrl,
    /// The fetcher could not list the board.
    CountFailed,
    /// The fetcher's listing is no JSON.
    MalformedListing,
    /// The fetcher could not download the board; with what it wrote to its error stream.
    DownloadFailed(String),
    /// There is no staging directory.
    MissingDataDirectory,
}

/// One entry of the staging directory.
#[derive(Debug, Clone, PartialEq, Eq)]
pub struct StagedFile {
    /// The entry's name within the directory.
    pub file_name: String,
    /// The entry's path.
    pub path: String,
    /// Whether the entry is a regular file.
    pub is_file: bool,
}

/// A path segment that can name the owner of a board: not empty, and neither part of the
/// scheme nor of the host.
pub open spec fn names_owner(part: Seq<char>) -> bool {
    &&& part.len() > 0
    &&& !contains(part, "pinterest"@)
    &&& !contains(part, "http"@)
}

/// The first position at or after `from` whose part can name an owner.
pub open spec fn owner_position(parts: Seq<Seq<char>>, from: int) -> Option<int>
    decreases parts.len() - from,
{
    if from < 0 || from >= parts.len() {
        None
    } else if names_owner(parts[from]) {
        Some(from)
    } else {
        owner_position(parts, from + 1)
    }
}

/// What a board address names: the first segment between slashes that can name an owner
/// is the owner, the next one the board, and the one after that the section if it begins
/// with `set`. An address without an owner, or with nothing behind it, names no board.
pub open spec fn board_address(url: Seq<char>) -> Option<BoardAddress> {
    let parts = split(url, '/');
    match owner_position(parts, 0) {
        None => None,
        Some(at) => if at + 1 < parts.len() {
            Some(
                BoardAddress {
                    username: parts[at],
                    board_name: parts[at + 1],
                    section: if at + 2 < parts.len() && starts_with(parts[at + 2], "set"@) {
                        Some(parts[at + 2])
                    } else {
                        None
                    },
                },
            )
        } else {
            None
        },
    }
}

/// The position that [`owner_position`] gives is the first one whose part can name an
/// owner, and it gives none only where no part can.
pub proof fn lemma_owner_position_is_first(parts: Seq<Seq<char>>, from: int)
    requires
        0 <= from,
    ensures
        match owner_position(parts, from) {
            Some(at) => from <= at < parts.len() && names_owner(parts[at]) && forall|j: int|
                from <= j < at ==> !names_owner(#[trigger] parts[j]),
            None => forall|j: int| from <= j < parts.len() ==> !names_owner(#[trigger] parts[j]),
        },
    decreases parts.len() - from,
{
    if from < parts.len() && !names_owner(parts[from]) {
        lemma_owner_position_is_first(parts, from + 1);
    }
}

impl PinterestInfo {
    /// The owner of the board.
    pub fn username(&self) -> (name: &String)
        ensures
            name@ == self@.username,
    {
        &self.username
    }

    /// The name of the board.
    pub fn board_name(&self) -> (name: &String)
        ensures
            name@ == self@.board_name,
    {
        &self.board_name
    }

    /// The section of the board, where the address points at one.
    pub fn section(&self) -> (section: &Option<String>)
        ensures
            match *section {
                Some(s) => self@.section == Some(s@),
                None => self@.section is None,
            },
    {
        &self.section
    }
}

/// Reads owner, board and section out of a board address.
///
/// Returns the address's parts where [`board_address`] finds them, and nothing where it
/// does not.
pub fn parse_pinterest_url(url: &str) -> (info: Option<PinterestInfo>)
    ensures
        match info {
            Some(i) => board_address(url@) == Some(i@),
            None => board_address(url@) is None,
        },
{
    let chars = chars_of(url);
    let parts = split_chars(&chars, '/');
    let host_mark = chars_of("pinterest");
    let scheme_mark = chars_of("http");
    let section_mark = chars_of("set");
    proof {
        lemma_split_nonempty(url@, '/');
    }
    let mut at: usize = 0;
    while at < parts.len()
        invariant
            at <= parts.len(),
            host_mark@ == "pinterest"@,
            scheme_mark@ == "http"@,
            owner_position(texts(parts@), 0) == owner_position(texts(parts@), at as int),
        ensures
            at <= parts.len(),
            owner_position(texts(parts@), 0) == if at < parts.len() {
                Some(at as int)
            } else {
                None
            },
        decreases parts.len() - at,
    {
        let part = &parts[at];
        if part.len() > 0 && !contains_chars(part, &host_mark) && !contains_chars(
            part,
            &scheme_mark,
        ) {
            break;
        }
        at += 1;
    }
    if at >= parts.len() || at + 1 >= parts.len() {
        return None;
    }
    let username = string_from(&parts[at]);
    let board_name = string_from(&parts[at + 1]);
    let section = if at + 2 < parts.len() && starts_with_chars(&parts[at + 2], &section_mark) {
        Some(string_from(&parts[at + 2]))
    } else {
        None
    };
    Some(PinterestInfo { username, board_name, section })
}

/// What a [`StagedFile`] says, as plain text.
pub struct StagedEntry {
    pub file_name: Seq<char>,
    pub path: Seq<char>,
    pub is_file: bool,
}

impl View for StagedFile {
    type V = StagedEntry;

    open spec fn view(&self) -> StagedEntry {
        StagedEntry { file_name: self.file_name@, path: self.path@, is_file: self.is_file }
    }
}

/// What each of a run of directory entries says.
pub open spec fn staged_entries(files: Seq<StagedFile>) -> Seq<StagedEntry> {
    files.map_values(|f: StagedFile| f@)
}

impl BoardError {
    /// The family of the failure.
    pub open spec fn spec_kind(&self) -> ErrorKind {
        match self {
            BoardError::UnparsableUrl => ErrorKind::Validation,
            BoardError::MissingDataDirectory => ErrorKind::Io,
            _ => ErrorKind::ExternalService,
        }
    }

    /// The family of the failure: an address that names no board is the requester's fault,
    /// a missing staging directory the file system's, everything else the fetcher's.
    pub fn kind(&self) -> (kind: ErrorKind)
        ensures
            kind == self.spec_kind(),
    {
        match self {
            BoardError::UnparsableUrl => ErrorKind::Validation,
            BoardError::MissingDataDirectory => ErrorKind::Io,
            _ => ErrorKind::ExternalService,
        }
    }

    /// The failure in words.
    pub open spec fn spec_message(&self) -> Seq<char> {
        match self {
            BoardError::ProbeFailed => "gallery-dl command failed"@,
            BoardError::UnparsableUrl => "Failed to parse URL"@,
            BoardError::CountFailed => "Failed to get image count"@,
            BoardError::MalformedListing => "Failed to read the image listing"@,
            BoardError::DownloadFailed(said) => "gallery-dl failed: "@ + said@,
            BoardError::MissingDataDirectory => "Data directory not found"@,
        }
    }

    /// The failure in words, for the log.
    pub fn message(&self) -> (message: String)
        ensures
            message@ == self.spec_message(),
    {
        match self {
            BoardError::ProbeFailed => "gallery-dl command failed".to_owned(),
            BoardError::UnparsableUrl => "Failed to parse URL".to_owned(),
            BoardError::CountFailed => "Failed to get image count".to_owned(),
            BoardError::MalformedListing => "Failed to read the image listing".to_owned(),
            BoardError::DownloadFailed(said) => {
                let mut message = "gallery-dl failed: ".to_owned();
                message.append(said.as_str());
                message
            },
            BoardError::MissingDataDirectory => "Data directory not found".to_owned(),
        }
    }
}

// ---------------------------------------------------------------------------------------
// Looking at a board
// ---------------------------------------------------------------------------------------
/// The arguments with which the fetcher lists a board as JSON.
pub open spec fn listing_arguments(url: Seq<char>) -> Seq<Seq<char>> {
    seq!["-j"@, url]
}

/// The arguments with which the fetcher lists the board at `url` as JSON.
pub fn listing_command(url: &str) -> (arguments: Vec<String>)
    ensures
        string_texts(arguments@) == listing_arguments(url@),
{
    let mut arguments: Vec<String> = Vec::new();
    arguments.push("-j".to_owned());
    arguments.push(url.to_owned());
    arguments
}

/// Owner, board and section of the board at `url`, once the fetcher has looked at it.
///
/// `probe_succeeded` says whether the fetcher, run with [`listing_command`], ended well.
/// A failed probe is reported before an address that names no board.
pub fn get_pinterest_info(url: &str, probe_succeeded: bool) -> (info: Result<
    (String, String, Option<String>),
    BoardError,
>)
    ensures
        !probe_succeeded ==> info matches Err(BoardError::ProbeFailed),
        probe_succeeded && board_address(url@) is None ==> info matches Err(
            BoardError::UnparsableUrl,
        ),
        probe_succeeded && board_address(url@) is Some ==> (info matches Ok(parts) && ({
            let address = board_address(url@)->0;
            &&& parts.0@ == address.username
            &&& parts.1@ == address.board_name
            &&& match parts.2 {
                Some(s) => address.section == Some(s@),
                None => address.section is None,
            }
        })),
{
    if !probe_succeeded {
        return Err(BoardError::ProbeFailed);
    }
    match parse_pinterest_url(url) {
        None => Err(BoardError::UnparsableUrl),
        Some(info) => Ok((info.username, info.board_name, info.section)),
    }
}

/// Whether an item of the fetcher's listing lies in `section`: its second element is an
/// object whose member `section` is that text.
pub open spec fn in_section(item: Json, section: Seq<char>) -> bool {
    item.element(1).member("section"@).text() == Some(section)
}

/// How many of `items` lie in `section`.
pub open spec fn count_in_section(items: Seq<Json>, section: Seq<char>) -> nat
    decreases items.len(),
{
    if items.len() == 0 {
        0
    } else {
        count_in_section(items.drop_last(), section) + if in_section(items.last(), section) {
            1nat
        } else {
            0nat
        }
    }
}

/// How many images a listing holds: the items of the list, or those of them that lie in
/// the section where one is asked for; none where the listing is no list.
pub open spec fn listed_images(listing: Json, section: Option<Seq<char>>) -> nat {
    match listing.items() {
        None => 0,
        Some(items) => match section {
            None => items.len(),
            Some(s) => count_in_section(items, s),
        },
    }
}

/// Counts the images of a listing that the parser has read.
pub fn count_listed(listing: &serde_json::Value, section: &Option<String>) -> (count: usize)
    ensures
        count == listed_images(
            json_of(*listing),
            match *section {
                Some(s) => Some(s@),
                None => None,
            },
        ),
{
    let items = match items_of(listing) {
        None => {
            return 0;
        },
        Some(items) => items,
    };
    let section = match section {
        None => {
            return items.len();
        },
        Some(section) => chars_of(section.as_str()),
    };
    let mut count: usize = 0;
    let mut i: usize = 0;
    while i < items.len()
        invariant
            i <= items.len(),
            count <= i,
            count == count_in_section(jsons_of(items@).take(i as int), section@),
        decreases items.len() - i,
    {
        assert(jsons_of(items@).take(i + 1).drop_last() =~= jsons_of(items@).take(i as int));
        let found = match text_of(member(element(&items[i], 1), "section")) {
            Some(s) => {
                let named = chars_of(s);
                same_chars(&named, &section)
            },
            None => false,
        };
        if found {
            count += 1;
        }
        i += 1;
    }
    assert(jsons_of(items@).take(items.len() as int) =~= jsons_of(items@));
    count
}

/// The number of images of the board at `url`, from what the fetcher printed when it was
/// run with [`listing_command`].
///
/// `probe_succeeded` says whether the fetcher ended well, `listing` is what it wrote to
/// its output. An address that names no board is reported first, then a failed fetcher,
/// then a listing that is no JSON.
pub fn get_image_count(url: &str, probe_succeeded: bool, listing: &[u8]) -> (count: Result<
    usize,
    BoardError,
>)
    ensures
        board_address(url@) is None ==> count matches Err(BoardError::UnparsableUrl),
        board_address(url@) is Some && !probe_succeeded ==> count matches Err(
            BoardError::CountFailed,
        ),
        board_address(url@) is Some && probe_succeeded && json_in_bytes(listing@) is None
            ==> count matches Err(BoardError::MalformedListing),
        board_address(url@) is Some && probe_succeeded && json_in_bytes(listing@) is Some
            ==> (count matches Ok(n) && n == listed_images(
            json_in_bytes(listing@)->0,
            board_address(url@)->0.section,
        )),
{
    let info = match parse_pinterest_url(url) {
        None => {
            return Err(BoardError::UnparsableUrl);
        },
        Some(info) => info,
    };
    if !probe_succeeded {
        return Err(BoardError::CountFailed);
    }
    match parse_bytes(listing) {
        Err(_) => Err(BoardError::MalformedListing),
        Ok(document) => Ok(count_listed(&document, &info.section)),
    }
}

// ---------------------------------------------------------------------------------------
// Downloading a board
// ---------------------------------------------------------------------------------------
/// The pattern after which the fetcher names the files it downloads: owner, board, the
/// section where there is one, and the image's own id and extension.
pub open spec fn filename_pattern(section: Option<Seq<char>>) -> Seq<char> {
    match section {
        Some(s) => "{board[owner][username]}_{board[name]}_"@ + s + "_{id}.{extension}"@,
        None => "{board[owner][username]}_{board[name]}_{id}.{extension}"@,
    }
}

/// The arguments with which the fetcher downloads a board into the staging directory.
pub open spec fn download_arguments(url: Seq<char>, section: Option<Seq<char>>) -> Seq<
    Seq<char>,
> {
    seq![url, "-D"@, STAGING_DIR@, "-f"@, filename_pattern(section)]
}

/// The arguments with which the fetcher downloads the board at `url`.
///
/// The caller makes sure that the staging directory exists, runs the fetcher with these
/// arguments and hands how it ended to [`download_outcome`].
pub fn download_board(url: &str) -> (arguments: Result<Vec<String>, BoardError>)
    ensures
        match arguments {
            Ok(list) => board_address(url@) is Some && string_texts(list@) == download_arguments(
                url@,
                board_address(url@)->0.section,
            ),
            Err(e) => board_address(url@) is None && e is UnparsableUrl,
        },
{
    let info = match parse_pinterest_url(url) {
        None => {
            return Err(BoardError::UnparsableUrl);
        },
        Some(info) => info,
    };
    let pattern = match &info.section {
        Some(section) => {
            let mut pattern = "{board[owner][username]}_{board[name]}_".to_owned();
            pattern.append(section.as_str());
            pattern.append("_{id}.{extension}");
            pattern
        },
        None => "{board[owner][username]}_{board[name]}_{id}.{extension}".to_owned(),
    };
    let mut list: Vec<String> = Vec::new();
    list.push(url.to_owned());
    list.push("-D".to_owned());
    list.push(STAGING_DIR.to_owned());
    list.push("-f".to_owned());
    list.push(pattern);
    Ok(list)
}

/// How a download ended: well, or with what the fetcher wrote to its error stream.
pub fn download_outcome(succeeded: bool, said: &str) -> (outcome: Result<(), BoardError>)
    ensures
        succeeded ==> outcome is Ok,
        !succeeded ==> (outcome matches Err(BoardError::DownloadFailed(s)) && s@ == said@),
{
    if succeeded {
        Ok(())
    } else {
        Err(BoardError::DownloadFailed(said.to_owned()))
    }
}

// ---------------------------------------------------------------------------------------
// The staged files of a board
// ---------------------------------------------------------------------------------------
/// Whether a directory entry is a downloaded image of a board: a regular file whose name
/// holds both the owner's name and the board's.
pub open spec fn belongs_to(entry: StagedEntry, username: Seq<char>, boardname: Seq<char>) -> bool {
    &&& entry.is_file
    &&& contains(entry.file_name, username)
    &&& contains(entry.file_name, boardname)
}

/// The paths of the entries that belong to a board, in the order of the directory.
pub open spec fn board_files(
    entries: Seq<StagedEntry>,
    username: Seq<char>,
    boardname: Seq<char>,
) -> Seq<Seq<char>>
    decreases entries.len(),
{
    if entries.len() == 0 {
        Seq::empty()
    } else {
        let before = board_files(entries.drop_last(), username, boardname);
        if belongs_to(entries.last(), username, boardname) {
            before.push(entries.last().path)
        } else {
            before
        }
    }
}

/// The paths of the entries of `listing` that belong to the board.
fn select_board_files(listing: &Vec<StagedFile>, username: &str, boardname: &str) -> (paths:
    Vec<String>)
    ensures
        string_texts(paths@) == board_files(staged_entries(listing@), username@, boardname@),
{
    let owner = chars_of(username);
    let board = chars_of(boardname);
    let mut paths: Vec<String> = Vec::new();
    let mut i: usize = 0;
    while i < listing.len()
        invariant
            i <= listing.len(),
            owner@ == username@,
            board@ == boardname@,
            string_texts(paths@) == board_files(
                staged_entries(listing@).take(i as int),
                username@,
                boardname@,
            ),
        decreases listing.len() - i,
    {
        let entry = &listing[i];
        assert(staged_entries(listing@).take(i + 1).drop_last() =~= staged_entries(
            listing@,
        ).take(i as int));
        if entry.is_file {
            let name = chars_of(entry.file_name.as_str());
            if contains_chars(&name, &owner) && contains_chars(&name, &board) {
                paths.push(entry.path.clone());
            }
        }
        i += 1;
    }
    assert(staged_entries(listing@).take(listing.len() as int) =~= staged_entries(listing@));
    paths
}

/// The paths of the downloaded images of a board, in the order of the staging directory.
///
/// `listing` holds the entries of the staging directory, or nothing where there is no
/// such directory, which is an error.
pub fn get_image_paths(listing: Option<&Vec<StagedFile>>, username: &str, boardname: &str) -> (paths:
    Result<Vec<String>, BoardError>)
    ensures
        match listing {
            None => paths matches Err(BoardError::MissingDataDirectory),
            Some(entries) => paths matches Ok(list) && string_texts(list@) == board_files(
                staged_entries(entries@),
                username@,
                boardname@,
            ),
        },
{
    match listing {
        None => Err(BoardError::MissingDataDirectory),
        Some(entries) => Ok(select_board_files(entries, username, boardname)),
    }
}

/// The paths to remove when the downloaded images of a board are cleaned up.
///
/// `listing` holds the entries of the staging directory, or nothing where there is no
/// such directory: then there is nothing to remove.
pub fn cleanup_data(listing: Option<&Vec<StagedFile>>, username: &str, boardname: &str) -> (doomed:
    Vec<String>)
    ensures
        string_texts(doomed@) == match listing {
            None => Seq::empty(),
            Some(entries) => board_files(staged_entries(entries@), username@, boardname@),
        },
{
    match listing {
        None => {
            let doomed: Vec<String> = Vec::new();
            doomed
        },
        Some(entries) => select_board_files(entries, username, boardname),
    }
}

} // verus!
