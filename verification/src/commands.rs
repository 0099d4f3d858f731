//! The closed command set: the variants a user can invoke, the registration
//! table of trigger names and one-line descriptions, and the generated help
//! listing.
//!
//! The help listing and the dispatch table are both driven by the same closed
//! set, so a command cannot gain a trigger without gaining a description.

use vstd::prelude::*;

verus! {

/// The closed set of user-invokable commands.
///
/// Two variants carry a mandatory free-text argument: a social handle for
/// `Tweet`, a ticker symbol for `Quote`. All others carry none.
#[derive(Debug)]
pub enum Command {
    /// Show the generated command listing.
    Help,
    /// The latest Bitcoin price from the price index.
    Btc,
    /// The latest Doge price.
    Doge,
    /// The latest Ethereum price.
    Eth,
    /// The latest tweet of the fixed sports-news handle.
    Woj,
    /// The latest tweet of the fixed forum-moderator handle.
    Wsb,
    /// The latest tweet of the given handle.
    Tweet(String),
    /// The latest Tesla quote.
    Tsla,
    /// The latest GameStop quote.
    Gme,
    /// The latest quote for the given ticker symbol.
    Quote(String),
}

/// One row of the command table: a trigger name and its one-line description.
pub struct CommandEntry {
    pub name: String,
    pub description: String,
}

/// The trigger names of the command set, in registration order.
pub open spec fn entry_names() -> Seq<Seq<char>> {
    seq![
        "help"@,
        "btc"@,
        "doge"@,
        "eth"@,
        "woj"@,
        "wsb"@,
        "tweet"@,
        "tsla"@,
        "gme"@,
        "quote"@,
    ]
}

/// The one-line descriptions of the command set, in the same order.
pub open spec fn entry_descriptions() -> Seq<Seq<char>> {
    seq![
        "display this text."@,
        "return the latest Bitcoin price."@,
        "return the latest Doge price."@,
        "return the latest Ethereum price."@,
        "return the latest Adrian Wojnarowski tweet."@,
        "return the latest wallstreetbets moderators tweet."@,
        "return the latest tweet from a handle."@,
        "return the latest Tesla quote."@,
        "return the latest GameStop quote."@,
        "return the latest quote from a stock."@,
    ]
}

/// The command table, one entry per variant of `Command`, in registration
/// order. Both the help listing and the transport-side command registration
/// are derived from this single table.
pub fn command_entries() -> (r: Vec<CommandEntry>)
    ensures
        r@.len() == entry_names().len(),
        r@.len() == entry_descriptions().len(),
        forall|i: int|
            0 <= i < r@.len() ==> r@[i].name@ == entry_names()[i] && r@[i].description@
                == entry_descriptions()[i],
{
    let r: Vec<CommandEntry> = vec![
        CommandEntry {
            name: String::from_str("help"),
            description: String::from_str("display this text."),
        },
        CommandEntry {
            name: String::from_str("btc"),
            description: String::from_str("return the latest Bitcoin price."),
        },
        CommandEntry {
            name: String::from_str("doge"),
            description: String::from_str("return the latest Doge price."),
        },
        CommandEntry {
            name: String::from_str("eth"),
            description: String::from_str("return the latest Ethereum price."),
        },
        CommandEntry {
            name: String::from_str("woj"),
            description: String::from_str("return the latest Adrian Wojnarowski tweet."),
        },
        CommandEntry {
            name: String::from_str("wsb"),
            description: String::from_str("return the latest wallstreetbets moderators tweet."),
        },
        CommandEntry {
            name: String::from_str("tweet"),
            description: String::from_str("return the latest tweet from a handle."),
        },
        CommandEntry {
            name: String::from_str("tsla"),
            description: String::from_str("return the latest Tesla quote."),
        },
        CommandEntry {
            name: String::from_str("gme"),
            description: String::from_str("return the latest GameStop quote."),
        },
        CommandEntry {
            name: String::from_str("quote"),
            description: String::from_str("return the latest quote from a stock."),
        },
    ];
    r
}

/// The header line of the help listing.
pub open spec fn help_header() -> Seq<char> {
    "These commands are supported:"@
}

/// One reply line of the help listing: a newline, the slash-prefixed trigger
/// name, a separator, and the description.
pub open spec fn entry_line(name: Seq<char>, description: Seq<char>) -> Seq<char> {
    "\n/"@ + name + " - "@ + description
}

/// The first `n` entry lines of the help listing, concatenated.
pub open spec fn help_body(names: Seq<Seq<char>>, descriptions: Seq<Seq<char>>, n: int) -> Seq<
    char,
>
    decreases n,
{
    if n <= 0 {
        Seq::empty()
    } else {
        help_body(names, descriptions, n - 1) + entry_line(names[n - 1], descriptions[n - 1])
    }
}

/// The full help listing: the header followed by one line per command entry.
pub open spec fn help_text_spec() -> Seq<char> {
    help_header() + help_body(
        entry_names(),
        entry_descriptions(),
        entry_names().len() as int,
    )
}

/// Generate the help listing from the command table.
pub fn help_text() -> (r: String)
    ensures
        r@ == help_text_spec(),
{
    let entries = command_entries();
    let ghost names = entry_names();
    let ghost descriptions = entry_descriptions();
    let mut s = String::from_str("These commands are supported:");
    let mut i: usize = 0;
    while i < entries.len()
        invariant
            entries@.len() == names.len(),
            entries@.len() == descriptions.len(),
            forall|j: int|
                0 <= j < entries@.len() ==> entries@[j].name@ == names[j]
                    && entries@[j].description@ == descriptions[j],
            i <= entries@.len(),
            names == entry_names(),
            descriptions == entry_descriptions(),
            s@ == help_header() + help_body(names, descriptions, i as int),
        decreases entries@.len() - i,
    {
        s.append("\n/");
        s.append(entries[i].name.as_str());
        s.append(" - ");
        s.append(entries[i].description.as_str());
        proof {
            assert(s@ == help_header() + help_body(names, descriptions, i + 1)) by {
                assert(s@ =~= help_header() + (help_body(names, descriptions, i as int)
                    + entry_line(names[i as int], descriptions[i as int])));
            }
        }
        i = i + 1;
    }
    s
}

/// How many newline characters a sequence holds.
pub open spec fn newline_count(s: Seq<char>) -> nat
    decreases s.len(),
{
    if s.len() == 0 {
        0
    } else {
        newline_count(s.drop_last()) + if s.last() == '\n' {
            1nat
        } else {
            0nat
        }
    }
}

/// A sequence that fits on one reply line: it holds no newline character.
pub open spec fn single_line(s: Seq<char>) -> bool {
    newline_count(s) == 0
}

/// Newline counting distributes over concatenation.
pub proof fn lemma_newline_count_concat(a: Seq<char>, b: Seq<char>)
    ensures
        newline_count(a + b) == newline_count(a) + newline_count(b),
    decreases b.len(),
{
    if b.len() == 0 {
        assert(a + b =~= a);
    } else {
        lemma_newline_count_concat(a, b.drop_last());
        assert((a + b).drop_last() =~= a + b.drop_last());
        assert((a + b).last() == b.last());
    }
}

/// A sequence none of whose characters is a newline holds no newline.
pub proof fn lemma_no_newline_char_single_line(s: Seq<char>)
    requires
        forall|i: int| 0 <= i < s.len() ==> s[i] != '\n',
    ensures
        single_line(s),
    decreases s.len(),
{
    if s.len() > 0 {
        lemma_no_newline_char_single_line(s.drop_last());
    }
}

/// Each entry contributes exactly one line to the listing: its leading
/// newline is the only newline in it.
pub proof fn lemma_entry_line_one_newline(name: Seq<char>, description: Seq<char>)
    requires
        single_line(name),
        single_line(description),
    ensures
        newline_count(entry_line(name, description)) == 1,
{
    assert(newline_count("\n/"@) == 1) by {
        reveal_with_fuel(newline_count, 4);
        reveal_strlit("\n/");
        assert("\n/"@.drop_last().drop_last() =~= Seq::<char>::empty());
        assert("\n/"@.drop_last().last() == '\n');
        assert("\n/"@.last() == '/');
    }
    assert(newline_count(" - "@) == 0) by {
        reveal_strlit(" - ");
        assert(forall|i: int| 0 <= i < " - "@.len() ==> " - "@[i] != '\n');
        lemma_no_newline_char_single_line(" - "@);
    }
    lemma_newline_count_concat("\n/"@, name);
    lemma_newline_count_concat("\n/"@ + name, " - "@);
    lemma_newline_count_concat("\n/"@ + name + " - "@, description);
}

/// One line per entry: over any command table whose names and descriptions
/// are single lines, the generated help body holds exactly one newline --
/// hence one reply line -- per entry. Registering an entry without a
/// description is impossible by construction, since both come from the same
/// table row.
pub proof fn lemma_help_one_line_per_entry(
    names: Seq<Seq<char>>,
    descriptions: Seq<Seq<char>>,
    n: int,
)
    requires
        0 <= n <= names.len(),
        names.len() == descriptions.len(),
        forall|i: int| 0 <= i < names.len() ==> single_line(names[i]),
        forall|i: int| 0 <= i < names.len() ==> single_line(descriptions[i]),
    ensures
        newline_count(help_body(names, descriptions, n)) == n,
    decreases n,
{
    if n > 0 {
        lemma_help_one_line_per_entry(names, descriptions, n - 1);
        lemma_entry_line_one_newline(names[n - 1], descriptions[n - 1]);
        lemma_newline_count_concat(
            help_body(names, descriptions, n - 1),
            entry_line(names[n - 1], descriptions[n - 1]),
        );
    }
}

/// The registered command table's help listing holds exactly one newline --
/// hence one reply line -- per registered entry, after its header line.
pub proof fn lemma_help_text_line_count()
    ensures
        newline_count(help_text_spec()) == entry_names().len(),
{
    assert(single_line(help_header())) by {
        reveal_strlit("These commands are supported:");
        assert(forall|i: int| 0 <= i < help_header().len() ==> help_header()[i] != '\n');
        lemma_no_newline_char_single_line(help_header());
    }
    assert(single_line("help"@)) by {
        reveal_strlit("help");
        assert(forall|i: int| 0 <= i < "help"@.len() ==> "help"@[i] != '\n');
        lemma_no_newline_char_single_line("help"@);
    }
    assert(single_line("btc"@)) by {
        reveal_strlit("btc");
        assert(forall|i: int| 0 <= i < "btc"@.len() ==> "btc"@[i] != '\n');
        lemma_no_newline_char_single_line("btc"@);
    }
    assert(single_line("doge"@)) by {
        reveal_strlit("doge");
        assert(forall|i: int| 0 <= i < "doge"@.len() ==> "doge"@[i] != '\n');
        lemma_no_newline_char_single_line("doge"@);
    }
    assert(single_line("eth"@)) by {
        reveal_strlit("eth");
        assert(forall|i: int| 0 <= i < "eth"@.len() ==> "eth"@[i] != '\n');
        lemma_no_newline_char_single_line("eth"@);
    }
    assert(single_line("woj"@)) by {
        reveal_strlit("woj");
        assert(forall|i: int| 0 <= i < "woj"@.len() ==> "woj"@[i] != '\n');
        lemma_no_newline_char_single_line("woj"@);
    }
    assert(single_line("wsb"@)) by {
        reveal_strlit("wsb");
        assert(forall|i: int| 0 <= i < "wsb"@.len() ==> "wsb"@[i] != '\n');
        lemma_no_newline_char_single_line("wsb"@);
    }
    assert(single_line("tweet"@)) by {
        reveal_strlit("tweet");
        assert(forall|i: int| 0 <= i < "tweet"@.len() ==> "tweet"@[i] != '\n');
        lemma_no_newline_char_single_line("tweet"@);
    }
    assert(single_line("tsla"@)) by {
        reveal_strlit("tsla");
        assert(forall|i: int| 0 <= i < "tsla"@.len() ==> "tsla"@[i] != '\n');
        lemma_no_newline_char_single_line("tsla"@);
    }
    assert(single_line("gme"@)) by {
        reveal_strlit("gme");
        assert(forall|i: int| 0 <= i < "gme"@.len() ==> "gme"@[i] != '\n');
        lemma_no_newline_char_single_line("gme"@);
    }
    assert(single_line("quote"@)) by {
        reveal_strlit("quote");
        assert(forall|i: int| 0 <= i < "quote"@.len() ==> "quote"@[i] != '\n');
        lemma_no_newline_char_single_line("quote"@);
    }
    assert(single_line("display this text."@)) by {
        reveal_strlit("display this text.");
        assert(forall|i: int|
            0 <= i < "display this text."@.len() ==> "display this text."@[i] != '\n');
        lemma_no_newline_char_single_line("display this text."@);
    }
    assert(single_line("return the latest Bitcoin price."@)) by {
        reveal_strlit("return the latest Bitcoin price.");
        assert(forall|i: int|
            0 <= i < "return the latest Bitcoin price."@.len()
                ==> "return the latest Bitcoin price."@[i] != '\n');
        lemma_no_newline_char_single_line("return the latest Bitcoin price."@);
    }
    assert(single_line("return the latest Doge price."@)) by {
        reveal_strlit("return the latest Doge price.");
        assert(forall|i: int|
            0 <= i < "return the latest Doge price."@.len() ==> "return the latest Doge price."@[i]
                != '\n');
        lemma_no_newline_char_single_line("return the latest Doge price."@);
    }
    assert(single_line("return the latest Ethereum price."@)) by {
        reveal_strlit("return the latest Ethereum price.");
        assert(forall|i: int|
            0 <= i < "return the latest Ethereum price."@.len()
                ==> "return the latest Ethereum price."@[i] != '\n');
        lemma_no_newline_char_single_line("return the latest Ethereum price."@);
    }
    assert(single_line("return the latest Adrian Wojnarowski tweet."@)) by {
        reveal_strlit("return the latest Adrian Wojnarowski tweet.");
        assert(forall|i: int|
            0 <= i < "return the latest Adrian Wojnarowski tweet."@.len()
                ==> "return the latest Adrian Wojnarowski tweet."@[i] != '\n');
        lemma_no_newline_char_single_line("return the latest Adrian Wojnarowski tweet."@);
    }
    assert(single_line("return the latest wallstreetbets moderators tweet."@)) by {
        reveal_strlit("return the latest wallstreetbets moderators tweet.");
        assert(forall|i: int|
            0 <= i < "return the latest wallstreetbets moderators tweet."@.len()
                ==> "return the latest wallstreetbets moderators tweet."@[i] != '\n');
        lemma_no_newline_char_single_line("return the latest wallstreetbets moderators tweet."@);
    }
    assert(single_line("return the latest tweet from a handle."@)) by {
        reveal_strlit("return the latest tweet from a handle.");
        assert(forall|i: int|
            0 <= i < "return the latest tweet from a handle."@.len()
                ==> "return the latest tweet from a handle."@[i] != '\n');
        lemma_no_newline_char_single_line("return the latest tweet from a handle."@);
    }
    assert(single_line("return the latest Tesla quote."@)) by {
        reveal_strlit("return the latest Tesla quote.");
        assert(forall|i: int|
            0 <= i < "return the latest Tesla quote."@.len()
                ==> "return the latest Tesla quote."@[i] != '\n');
        lemma_no_newline_char_single_line("return the latest Tesla quote."@);
    }
    assert(single_line("return the latest GameStop quote."@)) by {
        reveal_strlit("return the latest GameStop quote.");
        assert(forall|i: int|
            0 <= i < "return the latest GameStop quote."@.len()
                ==> "return the latest GameStop quote."@[i] != '\n');
        lemma_no_newline_char_single_line("return the latest GameStop quote."@);
    }
    assert(single_line("return the latest quote from a stock."@)) by {
        reveal_strlit("return the latest quote from a stock.");
        assert(forall|i: int|
            0 <= i < "return the latest quote from a stock."@.len()
                ==> "return the latest quote from a stock."@[i] != '\n');
        lemma_no_newline_char_single_line("return the latest quote from a stock."@);
    }
    assert(forall|i: int| 0 <= i < entry_names().len() ==> single_line(entry_names()[i]));
    assert(forall|i: int|
        0 <= i < entry_descriptions().len() ==> single_line(entry_descriptions()[i]));
    lemma_help_one_line_per_entry(
        entry_names(),
        entry_descriptions(),
        entry_names().len() as int,
    );
    lemma_newline_count_concat(
        help_header(),
        help_body(entry_names(), entry_descriptions(), entry_names().len() as int),
    );
}

} // verus!
