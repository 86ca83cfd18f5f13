//! Audio consumer that plays audio in a Discord voice channel.

pub mod cfg;
pub mod client;
pub mod error;
pub mod laws;
pub mod session;

use std::time::Duration;

use vstd::prelude::*;

use crate::util::fmt as fmt_util;
use crate::util::fmt::DisplayLength;
use crate::util::text;

use self::cfg::DiscordConfig;

verus! {

/// The header of the column that shows the ID of a server.
pub const GUILD_ID_HEADER: &'static str = "Server ID";

/// The header of the column that shows the name of a server.
pub const GUILD_NAME_HEADER: &'static str = "Server Name";

/// The header of the column that shows the owner of a server.
pub const OWNER_HEADER: &'static str = "Owner";

/// The number of servers that are queried at once.
pub const DEFAULT_FETCH_SIZE: u64 = 100;

// TYPE DEFINITIONS ************************************************************

/// Configuration of the audio consumer for Discord.
pub struct DiscordConsumer<'a> {
    config: &'a DiscordConfig,
    read_timeout: Option<Duration>,
}

/// Internal representation of state for a paginated query of Discord servers.
#[derive(Debug, Clone, Copy, PartialEq, Eq, Structural)]
pub enum GuildEnumerationState {
    /// Guild enumeration has not yet been started.
    NotStarted,

    /// The last iteration of guild enumeration ended with the given guild ID.
    LastGuild(u64),

    /// All guilds have been queried from the API.
    Exhausted,
}

/// A paginated query of Discord servers.
#[derive(Debug)]
pub struct GuildEnumeration {
    state: GuildEnumerationState,
    guilds: Vec<u64>,
}

/// The contents of a [`GuildEnumeration`].
#[verifier::ext_equal]
pub struct EnumerationView {
    pub state: GuildEnumerationState,

    /// The IDs of the guilds found so far.
    pub guilds: Seq<u64>,
}

/// A page of a paginated query of Discord servers.
#[derive(Debug, Clone, Copy, PartialEq, Eq, Structural)]
pub struct GuildPage {
    /// The ID of the guild after which the page starts, if it is not the first
    /// one.
    pub after: Option<u64>,

    /// The maximum number of guilds on the page.
    pub limit: u64,
}

/// What is shown to the user about a Discord server.
#[derive(Debug)]
pub struct GuildRow {
    pub id: u64,
    pub name: String,
    pub owner_name: String,
    pub owner_discriminator: u16,
}

// CONSUMER ********************************************************************

impl<'a> DiscordConsumer<'a> {
    /// The configuration of the Discord client.
    pub closed spec fn spec_config(&self) -> DiscordConfig {
        *self.config
    }

    /// The time to wait for audio to be read.
    pub closed spec fn spec_read_timeout(&self) -> Option<Duration> {
        self.read_timeout
    }

    /// Creates a consumer from the given configuration. An optional time limit
    /// for audio to be read can be provided.
    pub fn new(config: &'a DiscordConfig, read_timeout: Option<Duration>) -> (r: Self)
        ensures
            r.spec_config() == *config,
            r.spec_read_timeout() == read_timeout,
    {
        DiscordConsumer { config, read_timeout }
    }

    /// Returns the configuration of the Discord client.
    pub fn config(&self) -> (r: &'a DiscordConfig)
        ensures
            *r == self.spec_config(),
    {
        self.config
    }

    /// Returns the time to wait for audio to be read.
    pub fn read_timeout(&self) -> (r: Option<Duration>)
        ensures
            r == self.spec_read_timeout(),
    {
        self.read_timeout
    }
}

// SERVER ENUMERATION **********************************************************

impl GuildEnumerationState {
    /// The page to query next, if there is one.
    pub open spec fn page(self) -> Option<GuildPage> {
        match self {
            GuildEnumerationState::NotStarted => Some(
                GuildPage { after: None, limit: DEFAULT_FETCH_SIZE },
            ),
            GuildEnumerationState::LastGuild(id) => Some(
                GuildPage { after: Some(id), limit: DEFAULT_FETCH_SIZE },
            ),
            GuildEnumerationState::Exhausted => None,
        }
    }

    /// The state after a page with the given guilds.
    pub open spec fn after_page(guilds: Seq<u64>) -> GuildEnumerationState {
        if guilds.len() > 0 {
            GuildEnumerationState::LastGuild(guilds.last())
        } else {
            GuildEnumerationState::Exhausted
        }
    }
}

impl EnumerationView {
    /// Adds the guilds on the given page.
    pub open spec fn add_page(self, page: Seq<u64>) -> EnumerationView {
        EnumerationView {
            state: GuildEnumerationState::after_page(page),
            guilds: self.guilds + page,
        }
    }
}

impl View for GuildEnumeration {
    type V = EnumerationView;

    closed spec fn view(&self) -> EnumerationView {
        EnumerationView { state: self.state, guilds: self.guilds@ }
    }
}

impl GuildEnumeration {
    /// Creates a query that has not yet been started.
    pub fn new() -> (r: Self)
        ensures
            r@.state == GuildEnumerationState::NotStarted,
            r@.guilds == Seq::<u64>::empty(),
    {
        GuildEnumeration { state: GuildEnumerationState::NotStarted, guilds: Vec::new() }
    }

    /// Determines the page to query next, if there is one.
    pub fn next_page(&self) -> (r: Option<GuildPage>)
        ensures
            r == self@.state.page(),
    {
        match self.state {
            GuildEnumerationState::NotStarted => Some(
                GuildPage { after: None, limit: DEFAULT_FETCH_SIZE },
            ),
            GuildEnumerationState::LastGuild(id) => Some(
                GuildPage { after: Some(id), limit: DEFAULT_FETCH_SIZE },
            ),
            GuildEnumerationState::Exhausted => None,
        }
    }

    /// Adds the guilds on the page that was queried last. The query is complete
    /// once there are no guilds on a page.
    pub fn add_page(&mut self, mut page: Vec<u64>)
        ensures
            final(self)@ == old(self)@.add_page(page@),
    {
        self.state = if page.len() > 0 {
            GuildEnumerationState::LastGuild(page[page.len() - 1])
        } else {
            GuildEnumerationState::Exhausted
        };
        self.guilds.append(&mut page);
    }

    /// Returns the IDs of all guilds that have been found.
    pub fn into_guilds(self) -> (r: Vec<u64>)
        ensures
            r@ == self@.guilds,
    {
        self.guilds
    }
}

// SERVER LIST *****************************************************************

/// The contents of a [`GuildRow`].
pub struct GuildRowView {
    pub id: u64,
    pub name: Seq<char>,
    pub owner_name: Seq<char>,
    pub owner_discriminator: u16,
}

impl View for GuildRow {
    type V = GuildRowView;

    open spec fn view(&self) -> GuildRowView {
        GuildRowView {
            id: self.id,
            name: self.name@,
            owner_name: self.owner_name@,
            owner_discriminator: self.owner_discriminator,
        }
    }
}

/// The contents of a list of servers.
pub open spec fn row_views(rows: Seq<GuildRow>) -> Seq<GuildRowView> {
    rows.map_values(|row: GuildRow| row@)
}

/// The width of the column with the given header that holds the given texts.
pub open spec fn column_width(header: Seq<char>, cells: Seq<Seq<char>>) -> nat
    decreases cells.len(),
{
    if cells.len() == 0 {
        fmt_util::text_length(header)
    } else {
        fmt_util::max_nat(
            column_width(header, cells.drop_last()),
            fmt_util::text_length(cells.last()),
        )
    }
}

/// The cells of the column that shows the IDs of servers.
pub open spec fn id_cells(rows: Seq<GuildRowView>) -> Seq<Seq<char>> {
    rows.map_values(|row: GuildRowView| text::decimal(row.id as nat))
}

/// The cells of the column that shows the names of servers.
pub open spec fn name_cells(rows: Seq<GuildRowView>) -> Seq<Seq<char>> {
    rows.map_values(|row: GuildRowView| row.name)
}

/// A line of the table of servers.
pub open spec fn table_line(
    id: Seq<char>,
    id_width: nat,
    name: Seq<char>,
    name_width: nat,
    owner: Seq<char>,
) -> Seq<char> {
    text::padded(id, id_width) + "\t"@ + text::padded(name, name_width) + "\t"@ + owner
}

/// How the owner of a server is shown.
pub open spec fn owner_text(row: GuildRowView) -> Seq<char> {
    row.owner_name + "#"@ + text::zero_padded(row.owner_discriminator as nat, 4)
}

/// The table of servers: a line with the headers of the columns, followed by a
/// line for each server. The columns are wide enough for all of their contents.
/// There is no table if there are no servers.
pub open spec fn guild_table(rows: Seq<GuildRowView>) -> Seq<Seq<char>> {
    let id_width = column_width(GUILD_ID_HEADER@, id_cells(rows));
    let name_width = column_width(GUILD_NAME_HEADER@, name_cells(rows));
    if rows.len() == 0 {
        Seq::empty()
    } else {
        seq![
            table_line(GUILD_ID_HEADER@, id_width, GUILD_NAME_HEADER@, name_width, OWNER_HEADER@),
        ] + rows.map_values(
            |row: GuildRowView|
                table_line(
                    text::decimal(row.id as nat),
                    id_width,
                    row.name,
                    name_width,
                    owner_text(row),
                ),
        )
    }
}

/// Renders a line of the table of servers.
fn render_line(id: &str, id_width: usize, name: &str, name_width: usize, owner: &str) -> (r: String)
    ensures
        r@ == table_line(id@, id_width as nat, name@, name_width as nat, owner@),
{
    let mut r = text::pad_right(id, id_width);
    r.append("\t");
    r.append(text::pad_right(name, name_width).as_str());
    r.append("\t");
    r.append(owner);
    r
}

/// Renders the table of servers, line by line.
pub fn render_guilds(rows: &Vec<GuildRow>) -> (r: Vec<String>)
    ensures
        text::views(r@) == guild_table(row_views(rows@)),
{
    let ghost views = row_views(rows@);
    let mut r: Vec<String> = Vec::new();
    if rows.len() == 0 {
        assert(text::views(r@) =~= Seq::empty());
        return r;
    }

    // Determine the display widths for the first two columns
    let mut id_width: usize = GUILD_ID_HEADER.display_length();
    let mut name_width: usize = GUILD_NAME_HEADER.display_length();
    let mut i: usize = 0;
    while i < rows.len()
        invariant
            i <= rows.len(),
            views == row_views(rows@),
            id_width == column_width(GUILD_ID_HEADER@, id_cells(views).take(i as int)),
            name_width == column_width(GUILD_NAME_HEADER@, name_cells(views).take(i as int)),
        decreases rows.len() - i,
    {
        proof {
            let ids = id_cells(views);
            let names = name_cells(views);
            assert(ids.take(i + 1).drop_last() =~= ids.take(i as int));
            assert(names.take(i + 1).drop_last() =~= names.take(i as int));
            assert(views[i as int] == rows@[i as int]@);
        }
        id_width = fmt_util::max_length(id_width, rows[i].id.display_length());
        name_width = fmt_util::max_length(name_width, rows[i].name.display_length());
        i = i + 1;
    }
    assert(id_cells(views).take(i as int) =~= id_cells(views));
    assert(name_cells(views).take(i as int) =~= name_cells(views));

    r.push(render_line(GUILD_ID_HEADER, id_width, GUILD_NAME_HEADER, name_width, OWNER_HEADER));
    let ghost table = guild_table(views);
    let mut j: usize = 0;
    assert(text::views(r@) =~= table.take(1));
    while j < rows.len()
        invariant
            j <= rows.len(),
            rows.len() > 0,
            views == row_views(rows@),
            table == guild_table(views),
            id_width == column_width(GUILD_ID_HEADER@, id_cells(views)),
            name_width == column_width(GUILD_NAME_HEADER@, name_cells(views)),
            text::views(r@) =~= table.take(j + 1),
        decreases rows.len() - j,
    {
        let row = &rows[j];
        assert(views[j as int] == row@);
        let mut owner = row.owner_name.clone();
        owner.append("#");
        owner.append(text::zero_pad(row.owner_discriminator as u64, 4).as_str());
        let line = render_line(
            text::decimal_string(row.id).as_str(),
            id_width,
            row.name.as_str(),
            name_width,
            owner.as_str(),
        );
        let ghost before = text::views(r@);
        r.push(line);
        assert(text::views(r@) =~= before.push(line@));
        assert(line@ == table[j + 1]);
        j = j + 1;
    }
    assert(table.take(rows.len() + 1) =~= table);
    r
}

// LAWS ************************************************************************

/// The pages that are queried after the given state, if the server answers with
/// the given pages of guilds, until there is nothing left to query or to answer
/// with.
pub open spec fn queried(state: GuildEnumerationState, answers: Seq<Seq<u64>>) -> Seq<GuildPage>
    decreases answers.len(),
{
    match state.page() {
        Some(page) if answers.len() > 0 => seq![page] + queried(
            GuildEnumerationState::after_page(answers[0]),
            answers.skip(1),
        ),
        _ => Seq::empty(),
    }
}

/// The given query after the server has answered with the given pages of guilds.
pub open spec fn answered(query: EnumerationView, answers: Seq<Seq<u64>>) -> EnumerationView
    decreases answers.len(),
{
    if query.state.page() is Some && answers.len() > 0 {
        answered(query.add_page(answers[0]), answers.skip(1))
    } else {
        query
    }
}

/// Servers are queried until there is a page without any: every page but the
/// first one starts after the last server of the page before it, and nothing is
/// queried after the first empty page.
pub proof fn law_enumeration_pages(state: GuildEnumerationState, answers: Seq<Seq<u64>>)
    requires
        state !is Exhausted,
        answers.len() > 0,
        forall|i: int| 0 <= i < answers.len() - 1 ==> (#[trigger] answers[i]).len() > 0,
    ensures
        queried(state, answers).len() == answers.len(),
        forall|i: int|
            0 < i < answers.len() ==> (#[trigger] queried(state, answers)[i]).after == Some(
                answers[i - 1].last(),
            ),
    decreases answers.len(),
{
    let next = GuildEnumerationState::after_page(answers[0]);
    let rest = answers.skip(1);
    if answers.len() == 1 {
        assert(queried(next, rest) =~= Seq::empty());
    } else {
        assert forall|i: int| 0 <= i < rest.len() - 1 implies (#[trigger] rest[i]).len() > 0 by {
            assert(rest[i] == answers[i + 1]);
        }
        law_enumeration_pages(next, rest);
        let pages = queried(state, answers);
        assert forall|i: int| 0 < i < answers.len() implies (#[trigger] pages[i]).after == Some(
            answers[i - 1].last(),
        ) by {
            assert(pages[i] == queried(next, rest)[i - 1]);
            if i > 1 {
                assert(rest[i - 2] == answers[i - 1]);
            }
        }
    }
}

/// Nothing is queried after a page without servers.
pub proof fn law_enumeration_stops(query: EnumerationView, answers: Seq<Seq<u64>>)
    ensures
        queried(query.add_page(Seq::empty()).state, answers) == Seq::<GuildPage>::empty(),
{
}

/// A query finds all servers on all pages, in order, once it is complete.
pub proof fn law_enumeration_is_complete(query: EnumerationView, answers: Seq<Seq<u64>>)
    requires
        query.state !is Exhausted,
        answers.len() > 0,
        forall|i: int| 0 <= i < answers.len() - 1 ==> (#[trigger] answers[i]).len() > 0,
        answers.last().len() == 0,
    ensures
        answered(query, answers).state is Exhausted,
        answered(query, answers).guilds == query.guilds + answers.flatten(),
    decreases answers.len(),
{
    let next = query.add_page(answers[0]);
    let rest = answers.skip(1);
    assert(answers.drop_first() =~= rest);
    if answers.len() == 1 {
        assert(answers[0] =~= Seq::empty());
        assert(rest.flatten() =~= Seq::empty());
        assert(answered(next, rest) == next);
    } else {
        assert forall|i: int| 0 <= i < rest.len() - 1 implies (#[trigger] rest[i]).len() > 0 by {
            assert(rest[i] == answers[i + 1]);
        }
        assert(rest.last() == answers.last());
        assert(answers[0].len() > 0);
        law_enumeration_is_complete(next, rest);
        assert(next.guilds + rest.flatten() =~= query.guilds + answers.flatten());
    }
}

/// The table has a line for each server in addition to the headers.
pub proof fn law_table_length(rows: Seq<GuildRowView>)
    requires
        rows.len() > 0,
    ensures
        guild_table(rows).len() == rows.len() + 1,
{
}

/// Columns are aligned: the header and all cells of a column take up the same
/// width, and nothing is cut off.
pub proof fn law_columns_align(header: Seq<char>, cells: Seq<Seq<char>>, i: int)
    requires
        0 <= i < cells.len(),
    ensures
        text::padded(header, column_width(header, cells)).len() == column_width(header, cells),
        text::padded(cells[i], column_width(header, cells)).len() == column_width(header, cells),
        text::starts_with(text::padded(cells[i], column_width(header, cells)), cells[i]),
{
    law_column_is_wide_enough(header, cells, i);
    let padded = text::padded(cells[i], column_width(header, cells));
    assert(padded.take(cells[i].len() as int) =~= cells[i]);
}

/// A column is at least as wide as its header and each of its cells.
pub proof fn law_column_is_wide_enough(header: Seq<char>, cells: Seq<Seq<char>>, i: int)
    requires
        0 <= i < cells.len(),
    ensures
        fmt_util::text_length(header) <= column_width(header, cells),
        fmt_util::text_length(cells[i]) <= column_width(header, cells),
    decreases cells.len(),
{
    let before = cells.drop_last();
    if i < before.len() {
        law_column_is_wide_enough(header, before, i);
    } else if before.len() > 0 {
        law_column_is_wide_enough(header, before, 0);
    }
}

} // verus!
