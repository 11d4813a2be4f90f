use vstd::prelude::*;

use crate::Response;

verus! {

/// The help table: one entry per command, plus the troubleshooting note and
/// the version, in the order they are shown.
pub open spec fn spec_help_fields() -> Seq<(Seq<char>, Seq<char>, bool)> {
    seq![
        ("/join"@, "Joins your current channel"@, false),
        ("/leave"@, "Leaves current channel"@, false),
        ("/play {url / query}"@, "Plays audio from url or plays the first search result"@, false),
        ("/stop"@, "Stops current song and clears queue"@, false),
        ("/queue"@, "Shows audio in queue"@, false),
        ("/skip"@, "Skips to next track"@, false),
        ("/help"@, "Shows this message"@, false),
        ("/loop"@, "Enable or disable looping for current track"@, false),
        ("/np"@, "Shows current song and its progress"@, false),
        ("/goto {M:S}"@, "Goes to specified point in the track"@, false),
        (
            "Issues?"@,
            "If the bot has an issue or doesn't work you can try **stop** or **leave** commands to reset the bot. You can also check known issues at [DJ Ferris repository](https://github.com/KvanttoriOy/dj_ferris/issues)"@,
            false,
        ),
        ("Version:"@, "0.1.0"@, false),
    ]
}

/// Decides the help command: a fixed table of every command with a short
/// description. Never fails.
pub fn help() -> (r: Response)
    ensures
        r@.title == Some("Help"@),
        r@.description == Some("Below is a list of commands"@),
        r@.fields == Some(spec_help_fields()),
{
    let fields: Vec<(String, String, bool)> = vec![
        ("/join".to_owned(), "Joins your current channel".to_owned(), false),
        ("/leave".to_owned(), "Leaves current channel".to_owned(), false),
        (
            "/play {url / query}".to_owned(),
            "Plays audio from url or plays the first search result".to_owned(),
            false,
        ),
        ("/stop".to_owned(), "Stops current song and clears queue".to_owned(), false),
        ("/queue".to_owned(), "Shows audio in queue".to_owned(), false),
        ("/skip".to_owned(), "Skips to next track".to_owned(), false),
        ("/help".to_owned(), "Shows this message".to_owned(), false),
        ("/loop".to_owned(), "Enable or disable looping for current track".to_owned(), false),
        ("/np".to_owned(), "Shows current song and its progress".to_owned(), false),
        ("/goto {M:S}".to_owned(), "Goes to specified point in the track".to_owned(), false),
        (
            "Issues?".to_owned(),
            "If the bot has an issue or doesn't work you can try **stop** or **leave** commands to reset the bot. You can also check known issues at [DJ Ferris repository](https://github.com/KvanttoriOy/dj_ferris/issues)".to_owned(),
            false,
        ),
        ("Version:".to_owned(), "0.1.0".to_owned(), false),
    ];
    let ghost fields_view = fields@;
    let r = Response::new().title("Help").fields(fields).description("Below is a list of commands");
    proof {
        assert(fields_view.map_values(|e: (String, String, bool)| (e.0@, e.1@, e.2))
            =~= spec_help_fields());
    }
    r
}

} // verus!
