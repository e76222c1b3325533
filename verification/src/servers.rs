//! The list of saved server profiles: its rows, the order they are shown
//! in, which one is selected, the checks on a new or edited profile, and
//! what is saved on exit.
use crate::configuration::{Database, DatabaseView, Databases, Protocol, opt_str};
use crate::database_editor::{Form, FormTexts, form_database};
use crate::field::{FieldKey, TextEdit};
use crate::explorer::{chars_less, seq_less};
use crate::list_list::{max_width, widest};
use crate::nav::{next_index, prev_index, wrap_next, wrap_prev};
use crate::text::{decimal, from_chars, push_decimal, to_chars, str_eq};
use crate::footer::{hints, push_hint};
use vstd::prelude::*;

verus! {

/// One row of the list: the texts it shows and the profile behind it.
#[derive(Debug)]
pub struct Data {
    pub selected: String,
    pub name: String,
    pub location: String,
    pub db: String,
    pub username: String,
    pub use_tls: String,
    pub protocol: String,
    pub database: Database,
}

/// A row as the contracts see it.
pub struct DataView {
    pub selected: Seq<char>,
    pub name: Seq<char>,
    pub location: Seq<char>,
    pub db: Seq<char>,
    pub username: Seq<char>,
    pub use_tls: Seq<char>,
    pub protocol: Seq<char>,
    pub database: DatabaseView,
}

impl View for Data {
    type V = DataView;

    open spec fn view(&self) -> DataView {
        DataView {
            selected: self.selected@,
            name: self.name@,
            location: self.location@,
            db: self.db@,
            username: self.username@,
            use_tls: self.use_tls@,
            protocol: self.protocol@,
            database: self.database@,
        }
    }
}

/// The views of a list of rows.
pub open spec fn rows_view(v: Seq<Data>) -> Seq<DataView> {
    v.map_values(|d: Data| d@)
}

/// How `bool`'s `to_string` writes a flag.
pub open spec fn flag_text(b: bool) -> Seq<char> {
    if b {
        "true"@
    } else {
        "false"@
    }
}

/// The name of a protocol.
pub open spec fn protocol_text(p: Protocol) -> Seq<char> {
    match p {
        Protocol::RESP2 => "RESP2"@,
        Protocol::RESP3 => "RESP3"@,
    }
}

/// The row that shows a profile.
pub open spec fn row_of(selected: Seq<char>, name: Seq<char>, d: DatabaseView) -> DataView {
    DataView {
        selected,
        name,
        location: d.host + seq![':'] + decimal(d.port as nat),
        db: decimal(d.db as nat),
        username: match d.username {
            Some(u) => u,
            None => seq![],
        },
        use_tls: flag_text(d.use_tls),
        protocol: protocol_text(d.protocol),
        database: d,
    }
}

impl Data {
    /// The row that shows a profile under a name, marked `*` where it is the
    /// one in use.
    pub fn from_database(selected: &str, name: &str, database: Database) -> (r: Data)
        ensures
            r@ == row_of(selected@, name@, database@),
    {
        let mut loc: Vec<char> = to_chars(database.host.as_str());
        loc.push(':');
        push_decimal(&mut loc, database.port as u128);
        let mut db: Vec<char> = Vec::new();
        push_decimal(&mut db, database.db as u128);
        let username = match &database.username {
            Some(u) => u.clone(),
            None => String::new(),
        };
        let use_tls = if database.use_tls {
            String::from_str("true")
        } else {
            String::from_str("false")
        };
        let protocol = database.protocol.name();
        let location = from_chars(&loc);
        let db = from_chars(&db);
        proof {
            assert(location@ =~= database.host@ + seq![':'] + decimal(database.port as nat));
            assert(use_tls@ == flag_text(database.use_tls));
            assert(protocol@ == protocol_text(database.protocol));
            assert(username@ == (match database@.username {
                Some(u) => u,
                None => seq![],
            }));
        }
        Data {
            selected: selected.to_string(),
            name: name.to_string(),
            location,
            db,
            username,
            use_tls,
            protocol,
            database,
        }
    }

    pub fn name(&self) -> (r: &str)
        ensures
            r@ == self.name@,
    {
        self.name.as_str()
    }

    pub fn location(&self) -> (r: &str)
        ensures
            r@ == self.location@,
    {
        self.location.as_str()
    }

    pub fn db(&self) -> (r: &str)
        ensures
            r@ == self.db@,
    {
        self.db.as_str()
    }

    pub fn username(&self) -> (r: &str)
        ensures
            r@ == self.username@,
    {
        self.username.as_str()
    }

    pub fn use_tls(&self) -> (r: &str)
        ensures
            r@ == self.use_tls@,
    {
        self.use_tls.as_str()
    }

    pub fn protocol(&self) -> (r: &str)
        ensures
            r@ == self.protocol@,
    {
        self.protocol.as_str()
    }
}

/// `s` with `x` put after every row whose name does not come after `x`'s,
/// walking from the end: one step of a stable sort by name.
pub open spec fn insert_by_name(s: Seq<DataView>, x: DataView) -> Seq<DataView>
    decreases s.len(),
{
    if s.len() == 0 {
        seq![x]
    } else if seq_less(x.name, s.last().name) {
        insert_by_name(s.drop_last(), x).push(s.last())
    } else {
        s.push(x)
    }
}

/// The rows sorted by name, rows with equal names kept in their order.
pub open spec fn sort_by_name(s: Seq<DataView>) -> Seq<DataView>
    decreases s.len(),
{
    if s.len() == 0 {
        seq![]
    } else {
        insert_by_name(sort_by_name(s.drop_last()), s.last())
    }
}

/// Puts a row into a list in the place `insert_by_name` gives it.
fn insert_row(rows: &mut Vec<Data>, x: Data)
    ensures
        rows_view(final(rows)@) == insert_by_name(rows_view(old(rows)@), x@),
{
    let ghost xs = rows_view(rows@);
    let xname = to_chars(x.name.as_str());
    let mut j = rows.len();
    proof {
        assert(xs.take(j as int) =~= xs);
        assert(xs.skip(j as int) =~= seq![]);
        assert(insert_by_name(xs, x@) =~= insert_by_name(xs.take(j as int), x@) + xs.skip(j as int));
    }
    let mut done = false;
    while j > 0 && !done
        invariant
            j <= rows.len(),
            rows@ == old(rows)@,
            xs == rows_view(rows@),
            xname@ == x.name@,
            insert_by_name(xs, x@) == insert_by_name(xs.take(j as int), x@) + xs.skip(j as int),
            done ==> j > 0 && !seq_less(x.name@, xs[j - 1].name),
        decreases j + (if done { 0int } else { 1int }),
    {
        let other = to_chars(rows[j - 1].name.as_str());
        if chars_less(&xname, &other) {
            proof {
                let t = xs.take(j as int);
                assert(t.drop_last() =~= xs.take(j - 1));
                assert(t.last() == xs[j - 1]);
                assert(xs.skip(j - 1) =~= seq![xs[j - 1]] + xs.skip(j as int));
                assert(insert_by_name(t, x@) == insert_by_name(t.drop_last(), x@).push(t.last()));
                assert(insert_by_name(xs.take(j - 1), x@).push(xs[j - 1]) + xs.skip(j as int)
                    =~= insert_by_name(xs.take(j - 1), x@) + xs.skip(j - 1));
            }
            j = j - 1;
        } else {
            done = true;
        }
    }
    proof {
        if j == 0 {
            assert(xs.take(0) =~= seq![]);
            assert(xs.skip(0) =~= xs);
            assert(insert_by_name(xs, x@) =~= xs.insert(0, x@));
        } else {
            let t = xs.take(j as int);
            assert(t.last() == xs[j - 1]);
            assert(insert_by_name(t, x@) == t.push(x@));
            assert(insert_by_name(xs, x@) =~= xs.insert(j as int, x@));
        }
    }
    rows.insert(j, x);
    proof {
        assert(rows_view(rows@) =~= xs.insert(j as int, x@));
    }
}

/// Why a profile cannot be saved.
#[derive(Debug, PartialEq, Eq)]
pub enum ProfileError {
    /// The name is empty.
    BlankName,
    /// Another profile has the name.
    Exists(String),
}

/// The list of profiles, apart from what only draws it.
#[derive(Debug)]
pub struct ServerList {
    pub init_database_name: Option<String>,
    pub have_changed: bool,
    pub show_delete_popup: bool,
    pub show_create_popup: bool,
    pub show_edit_popup: bool,
    pub selected: Option<usize>,
    pub items: Vec<Data>,
    pub save_on_exit: bool,
    pub create_form: Form,
    pub edit_form: Form,
}

/// The first position of a row marked `*`, if any.
pub open spec fn first_marked(rows: Seq<DataView>) -> Option<int>
    decreases rows.len(),
{
    if rows.len() == 0 {
        None
    } else {
        match first_marked(rows.drop_last()) {
            Some(i) => Some(i),
            None => if rows.last().selected == "*"@ {
                Some(rows.len() - 1)
            } else {
                None
            },
        }
    }
}

/// The rows of the saved profiles, in the order they were saved, each
/// marked `*` where its name is the default one.
pub open spec fn profile_rows(profiles: Seq<(String, Database)>, default: Option<Seq<char>>) -> Seq<
    DataView,
> {
    profiles.map_values(
        |p: (String, Database)|
            row_of(
                if default == Some(p.0@) {
                    "*"@
                } else {
                    seq![]
                },
                p.0@,
                p.1@,
            ),
    )
}

/// The name of the selected row, if a row is selected.
pub open spec fn selected_name(rows: Seq<DataView>, selected: Option<usize>) -> Option<Seq<char>> {
    match selected {
        Some(i) => if i < rows.len() {
            Some(rows[i as int].name)
        } else {
            None
        },
        None => None,
    }
}

/// The profiles saved from the rows: each name once, in the order of its
/// first row, with the profile of its last row (as inserting them one by
/// one into a map keeps them).
pub open spec fn upsert(m: Seq<(Seq<char>, DatabaseView)>, name: Seq<char>, d: DatabaseView) -> Seq<
    (Seq<char>, DatabaseView),
> {
    let k = find_name(m, name);
    if k >= 0 {
        m.update(k, (name, d))
    } else {
        m.push((name, d))
    }
}

/// The first position of an entry named `name`, or -1.
pub open spec fn find_name(m: Seq<(Seq<char>, DatabaseView)>, name: Seq<char>) -> int
    decreases m.len(),
{
    if m.len() == 0 {
        -1
    } else {
        let k = find_name(m.drop_last(), name);
        if k >= 0 {
            k
        } else if m.last().0 == name {
            m.len() - 1
        } else {
            -1
        }
    }
}

/// The profiles that the rows save.
pub open spec fn saved_profiles(rows: Seq<DataView>) -> Seq<(Seq<char>, DatabaseView)>
    decreases rows.len(),
{
    if rows.len() == 0 {
        seq![]
    } else {
        upsert(saved_profiles(rows.drop_last()), rows.last().name, rows.last().database)
    }
}

/// Whether no two entries share a name.
pub open spec fn names_unique(m: Seq<(Seq<char>, DatabaseView)>) -> bool {
    forall|a: int, b: int| 0 <= a < b < m.len() ==> #[trigger] m[a].0 != #[trigger] m[b].0
}

/// The view of saved profiles.
pub open spec fn profiles_view(v: Seq<(String, Database)>) -> Seq<(Seq<char>, DatabaseView)> {
    v.map_values(|p: (String, Database)| (p.0@, p.1@))
}

/// The row marked `*` where its name is `name`, unmarked otherwise.
pub open spec fn marked_row(o: DataView, name: Seq<char>) -> DataView {
    DataView {
        selected: if o.name == name {
            "*"@
        } else {
            seq![]
        },
        ..o
    }
}

/// How a key on the delete confirmation ended.
#[derive(Debug, PartialEq, Eq)]
pub enum DeleteOutcome {
    /// The key was not a plain press, or neither Enter nor Esc.
    Nothing,
    /// The popup was closed without deleting.
    Closed,
    /// The selected row is the profile in use: nothing was deleted and the
    /// user is to be warned.
    RefusedSelected,
    /// The selected row was deleted.
    Deleted,
}

fn clone_row(d: &Data) -> (r: Data)
    ensures
        r@ == d@,
{
    Data {
        selected: d.selected.clone(),
        name: d.name.clone(),
        location: d.location.clone(),
        db: d.db.clone(),
        username: d.username.clone(),
        use_tls: d.use_tls.clone(),
        protocol: d.protocol.clone(),
        database: Database::from(&d.database),
    }
}

impl ServerList {
    /// The list of the saved profiles, sorted by name, the one in use marked
    /// `*` and selected (the first row where none is in use).
    pub fn new(databases: &Databases) -> (r: ServerList)
        ensures
            rows_view(r.items@) == sort_by_name(
                profile_rows(databases.databases@, opt_str(databases.default_database)),
            ),
            r.selected == Some(
                match first_marked(rows_view(r.items@)) {
                    Some(i) => i as usize,
                    None => 0usize,
                },
            ),
            opt_str(r.init_database_name) == selected_name(rows_view(r.items@), r.selected),
            !r.have_changed,
            !r.show_delete_popup,
            !r.show_create_popup,
            !r.show_edit_popup,
            r.save_on_exit,
    {
        let ghost all = profile_rows(databases.databases@, opt_str(databases.default_database));
        let mut items: Vec<Data> = Vec::new();
        let mut i: usize = 0;
        while i < databases.databases.len()
            invariant
                i <= databases.databases.len(),
                all == profile_rows(databases.databases@, opt_str(databases.default_database)),
                rows_view(items@) == sort_by_name(all.take(i as int)),
            decreases databases.databases.len() - i,
        {
            let (name, database) = &databases.databases[i];
            let marked = match &databases.default_database {
                Some(default) => str_eq(name.as_str(), default.as_str()),
                None => false,
            };
            let mark = if marked {
                "*"
            } else {
                ""
            };
            proof {
                reveal_strlit("*");
                reveal_strlit("");
            }
            let row = Data::from_database(mark, name.as_str(), Database::from(database));
            proof {
                assert(all.take(i + 1).drop_last() =~= all.take(i as int));
                assert(all.take(i + 1).last() == all[i as int]);
                assert(""@ =~= Seq::<char>::empty());
                assert(all[i as int] == row_of(
                    if opt_str(databases.default_database) == Some(name@) {
                        "*"@
                    } else {
                        seq![]
                    },
                    name@,
                    database@,
                ));
                assert(row@ == all[i as int]);
            }
            insert_row(&mut items, row);
            i = i + 1;
        }
        proof {
            assert(all.take(databases.databases@.len() as int) =~= all);
        }
        let mut k: usize = 0;
        let mut found = false;
        let ghost rows = rows_view(items@);
        while k < items.len() && !found
            invariant
                k <= items.len(),
                rows == rows_view(items@),
                found ==> k < items.len() && first_marked(rows) == Some(k as int),
                !found ==> first_marked(rows.take(k as int)) is None,
            decreases items.len() - k + (if found { 0int } else { 1int }),
        {
            proof {
                reveal_strlit("*");
                assert(rows.take(k + 1).drop_last() =~= rows.take(k as int));
            }
            if str_eq(items[k].selected.as_str(), "*") {
                found = true;
                proof {
                    lemma_first_marked_prefix(rows, k as int);
                }
            } else {
                k = k + 1;
            }
        }
        let default_selected: usize = if found {
            k
        } else {
            proof {
                assert(rows.take(rows.len() as int) =~= rows);
            }
            0
        };
        let init_database_name = if default_selected < items.len() {
            Some(items[default_selected].name.clone())
        } else {
            None
        };
        ServerList {
            init_database_name,
            have_changed: false,
            show_delete_popup: false,
            show_create_popup: false,
            show_edit_popup: false,
            selected: Some(default_selected),
            items,
            save_on_exit: true,
            create_form: Form::default().title("New"),
            edit_form: Form::default().title("Edit"),
        }
    }

    /// Selects the row below, or the first after the last.
    pub fn next(&mut self)
        requires
            old(self).items@.len() > 0 || old(self).selected is None,
        ensures
            final(self).selected == Some(
                wrap_next(old(self).selected, old(self).items@.len()) as usize,
            ),
            final(self).items@ == old(self).items@,
            final(self).create_form == old(self).create_form,
            final(self).edit_form == old(self).edit_form,
    {
        let i = next_index(self.selected, self.items.len());
        self.selected = Some(i);
    }

    /// Selects the row above, or the last before the first.
    pub fn previous(&mut self)
        requires
            old(self).items@.len() > 0 || old(self).selected != Some(0usize),
        ensures
            final(self).selected == Some(
                wrap_prev(old(self).selected, old(self).items@.len()) as usize,
            ),
            final(self).items@ == old(self).items@,
            final(self).create_form == old(self).create_form,
            final(self).edit_form == old(self).edit_form,
    {
        let i = prev_index(self.selected, self.items.len());
        self.selected = Some(i);
    }

    /// After switching to the profile `name`: marks every row of that name
    /// with `*` and unmarks the others.
    pub fn mark_selected(&mut self, name: &str)
        ensures
            final(self).items@.len() == old(self).items@.len(),
            forall|j: int|
                0 <= j < old(self).items@.len() ==> {
                    let o = #[trigger] rows_view(old(self).items@)[j];
                    rows_view(final(self).items@)[j] == marked_row(o, name@)
                },
            final(self).selected == old(self).selected,
            final(self).create_form == old(self).create_form,
            final(self).edit_form == old(self).edit_form,
    {
        let ghost before = rows_view(self.items@);
        let mut out: Vec<Data> = Vec::new();
        let mut j: usize = 0;
        while j < self.items.len()
            invariant
                j <= self.items.len(),
                before == rows_view(self.items@),
                self.items@ == old(self).items@,
                out@.len() == j,
                forall|t: int|
                    0 <= t < j ==> #[trigger] rows_view(out@)[t] == marked_row(before[t], name@),
            decreases self.items.len() - j,
        {
            let mut row = clone_row(&self.items[j]);
            proof {
                reveal_strlit("*");
            }
            if str_eq(row.name.as_str(), name) {
                row.selected = String::from_str("*");
            } else {
                row.selected = String::new();
            }
            let ghost prev = out@;
            proof {
                assert(row@ == marked_row(before[j as int], name@));
            }
            out.push(row);
            proof {
                assert(rows_view(out@) =~= rows_view(prev).push(marked_row(before[j as int], name@)));
            }
            j = j + 1;
        }
        self.items = out;
    }

    /// The selected row, if a row is selected.
    pub fn selected_row(&self) -> (r: Option<&Data>)
        ensures
            match r {
                Some(d) => match self.selected {
                    Some(i) => i < self.items@.len() && d@ == rows_view(self.items@)[i as int],
                    None => false,
                },
                None => match self.selected {
                    Some(i) => i >= self.items@.len(),
                    None => true,
                },
            },
    {
        match self.selected {
            Some(i) => if i < self.items.len() {
                Some(&self.items[i])
            } else {
                None
            },
            None => None,
        }
    }

    /// Checks a new profile: its name must not be empty nor taken.
    pub fn valid_create(&self, data: &Data) -> (r: Result<(), ProfileError>)
        ensures
            data.name@.len() == 0 ==> r == Err::<(), ProfileError>(ProfileError::BlankName),
            data.name@.len() > 0 && (exists|j: int|
                0 <= j < self.items@.len() && #[trigger] self.items@[j].name@ == data.name@)
                ==> (r matches Err(ProfileError::Exists(n)) && n@ == data.name@),
            data.name@.len() > 0 && !(exists|j: int|
                0 <= j < self.items@.len() && #[trigger] self.items@[j].name@ == data.name@)
                ==> r is Ok,
    {
        if data.name.as_str().is_empty() {
            return Err(ProfileError::BlankName);
        }
        let mut j: usize = 0;
        while j < self.items.len()
            invariant
                j <= self.items.len(),
                forall|t: int| 0 <= t < j ==> #[trigger] self.items@[t].name@ != data.name@,
                data.name@.len() > 0,
            decreases self.items.len() - j,
        {
            if str_eq(self.items[j].name.as_str(), data.name.as_str()) {
                return Err(ProfileError::Exists(data.name.clone()));
            }
            j = j + 1;
        }
        Ok(())
    }

    /// Checks an edited profile: its name must not be empty.
    pub fn valid_edit(&self, data: &Data) -> (r: Result<(), ProfileError>)
        ensures
            data.name@.len() == 0 ==> r == Err::<(), ProfileError>(ProfileError::BlankName),
            data.name@.len() > 0 ==> r is Ok,
    {
        if data.name.as_str().is_empty() {
            Err(ProfileError::BlankName)
        } else {
            Ok(())
        }
    }
}

/// What a key did to the list, and what is left for the caller to do.
#[derive(Debug)]
pub enum ServerOutcome {
    /// The key was not taken.
    NotTaken,
    /// The key was taken; nothing is left to do.
    Taken,
    /// Enter on the list: switch the client to the selected row's profile,
    /// then mark it with `mark_selected`.
    Switch,
    /// A key on the delete confirmation.
    Delete(DeleteOutcome),
    /// A key went to the field being edited in the open form; apply the edit
    /// to that field's text area.
    FormEdit(TextEdit),
    /// The new profile was added.
    Created,
    /// The edited profile is the one in use: switch the client to it, then
    /// hand it to `commit_edit`.
    EditNeedsSwitch(Data),
    /// The edited profile replaced the selected row.
    Edited,
    /// The profile was refused.
    Failed(ProfileError),
    /// The edit form was opened on the selected row; load these texts into
    /// its text areas.
    OpenEdit(FormTexts),
}

/// Whether a key moves the selection.
pub open spec fn moves(key: FieldKey) -> bool {
    key == FieldKey::Char('j') || key is Down || key == FieldKey::Char('k') || key is Up
}

impl ServerList {
    /// Handles a key on the delete confirmation.  Only plain presses count:
    /// Enter deletes the selected row unless it is the profile in use, and
    /// closes the popup; Esc closes it.
    pub fn handle_delete_key(&mut self, key: FieldKey, press: bool, plain: bool) -> (r: DeleteOutcome)
        ensures
            !press || !plain || !(key is Enter || key is Esc) ==> r == DeleteOutcome::Nothing
                && rows_view(final(self).items@) == rows_view(old(self).items@)
                && final(self).show_delete_popup == old(self).show_delete_popup
                && final(self).have_changed == old(self).have_changed,
            press && plain && key is Esc ==> r == DeleteOutcome::Closed && !final(
                self).show_delete_popup && rows_view(final(self).items@) == rows_view(
                old(self).items@) && final(self).have_changed == old(self).have_changed,
            press && plain && key is Enter ==> !final(self).show_delete_popup && match old(
                self).selected {
                Some(i) => if i < old(self).items@.len() {
                    if rows_view(old(self).items@)[i as int].selected == "*"@ {
                        r == DeleteOutcome::RefusedSelected && rows_view(final(self).items@)
                            == rows_view(old(self).items@) && final(self).have_changed == old(
                            self).have_changed
                    } else {
                        r == DeleteOutcome::Deleted && rows_view(final(self).items@) == rows_view(
                            old(self).items@).remove(i as int) && final(self).have_changed
                    }
                } else {
                    r == DeleteOutcome::Closed && rows_view(final(self).items@) == rows_view(
                        old(self).items@) && final(self).have_changed == old(self).have_changed
                },
                None => r == DeleteOutcome::Closed && rows_view(final(self).items@) == rows_view(
                    old(self).items@) && final(self).have_changed == old(self).have_changed,
            },
            final(self).selected == old(self).selected,
            final(self).show_create_popup == old(self).show_create_popup,
            final(self).show_edit_popup == old(self).show_edit_popup,
            final(self).create_form == old(self).create_form,
            final(self).edit_form == old(self).edit_form,
    {
        if !press || !plain {
            return DeleteOutcome::Nothing;
        }
        match key {
            FieldKey::Enter => {
                let mut outcome = DeleteOutcome::Closed;
                if let Some(i) = self.selected {
                    if i < self.items.len() {
                        proof {
                            reveal_strlit("*");
                        }
                        if str_eq(self.items[i].selected.as_str(), "*") {
                            outcome = DeleteOutcome::RefusedSelected;
                        } else {
                            self.have_changed = true;
                            let ghost before = self.items@;
                            self.items.remove(i);
                            proof {
                                assert(rows_view(self.items@) =~= rows_view(before).remove(i as int));
                            }
                            outcome = DeleteOutcome::Deleted;
                        }
                    }
                }
                self.show_delete_popup = false;
                outcome
            },
            FieldKey::Esc => {
                self.show_delete_popup = false;
                DeleteOutcome::Closed
            },
            _ => DeleteOutcome::Nothing,
        }
    }

    /// Adds the profile of the create form, with the form's texts, unless
    /// it is refused; then resets the form and closes its popup.
    pub fn create_profile(&mut self, texts: &FormTexts) -> (r: Result<(), ProfileError>)
        ensures
            texts.name@.len() == 0 ==> r == Err::<(), ProfileError>(ProfileError::BlankName),
            texts.name@.len() > 0 && (exists|j: int|
                0 <= j < old(self).items@.len() && #[trigger] old(self).items@[j].name@
                    == texts.name@) ==> (r matches Err(ProfileError::Exists(n)) && n@
                == texts.name@),
            r is Err ==> rows_view(final(self).items@) == rows_view(old(self).items@)
                && final(self).show_create_popup == old(self).show_create_popup
                && final(self).have_changed == old(self).have_changed,
            r is Ok ==> rows_view(final(self).items@) == rows_view(old(self).items@).push(
                row_of(seq![], texts.name@, form_database(old(self).create_form, *texts)),
            ) && !final(self).show_create_popup && final(self).have_changed
                && final(self).create_form.editing == 0 && final(self).create_form.title@ == "New"@,
            texts.name@.len() > 0 && !(exists|j: int|
                0 <= j < old(self).items@.len() && #[trigger] old(self).items@[j].name@
                    == texts.name@) ==> r is Ok,
            final(self).selected == old(self).selected,
            final(self).show_edit_popup == old(self).show_edit_popup,
            final(self).show_delete_popup == old(self).show_delete_popup,
            final(self).edit_form == old(self).edit_form,
            r is Err ==> final(self).create_form == old(self).create_form,
    {
        let database = self.create_form.to_database(texts);
        let name = self.create_form.get_name(texts);
        let data = Data::from_database("", name.as_str(), database);
        proof {
            reveal_strlit("");
            assert(""@ =~= Seq::<char>::empty());
        }
        match self.valid_create(&data) {
            Err(e) => Err(e),
            Ok(()) => {
                self.have_changed = true;
                let ghost before = self.items@;
                self.items.push(data);
                proof {
                    assert(rows_view(self.items@) =~= rows_view(before).push(data@));
                }
                self.create_form = Form::default().title("New");
                self.show_create_popup = false;
                proof {
                    reveal_strlit("New");
                }
                Ok(())
            },
        }
    }

    /// Puts an edited profile in place of the selected row, resets the edit
    /// form and closes its popup.
    pub fn commit_edit(&mut self, data: Data)
        requires
            old(self).selected matches Some(i) && i < old(self).items@.len(),
        ensures
            rows_view(final(self).items@) == rows_view(old(self).items@).update(
                old(self).selected.unwrap() as int,
                data@,
            ),
            final(self).have_changed,
            !final(self).show_edit_popup,
            final(self).edit_form.editing == 0,
            final(self).selected == old(self).selected,
            final(self).create_form == old(self).create_form,
    {
        let i = self.selected.unwrap();
        let ghost before = self.items@;
        let ghost dv = data@;
        self.items.set(i, data);
        proof {
            assert(rows_view(self.items@) =~= rows_view(before).update(i as int, dv));
        }
        self.have_changed = true;
        self.edit_form = Form::default().title("Edit");
        self.show_edit_popup = false;
    }

    /// The profiles to save on exit, if the rows changed or another profile
    /// than the first one is selected: the selected row's name as the
    /// default, and each row's profile under its name.
    pub fn save_plan(&self) -> (r: Option<Databases>)
        ensures
            r is Some <== (self.have_changed || selected_name(rows_view(self.items@), self.selected)
                != opt_str(self.init_database_name)),
            r is Some ==> (self.have_changed || selected_name(rows_view(self.items@), self.selected)
                != opt_str(self.init_database_name)),
            r matches Some(d) ==> opt_str(d.default_database) == selected_name(
                rows_view(self.items@),
                self.selected,
            ) && profiles_view(d.databases@) == saved_profiles(rows_view(self.items@)),
        r matches Some(d) ==> names_unique(profiles_view(d.databases@)),
    {
        let selected = match self.selected_row() {
            Some(d) => Some(d.name.clone()),
            None => None,
        };
        let changed_default = match (&selected, &self.init_database_name) {
            (Some(a), Some(b)) => !str_eq(a.as_str(), b.as_str()),
            (None, None) => false,
            _ => true,
        };
        if !(self.have_changed || changed_default) {
            return None;
        }
        let ghost rows = rows_view(self.items@);
        let mut out: Vec<(String, Database)> = Vec::new();
        let mut i: usize = 0;
        while i < self.items.len()
            invariant
                i <= self.items.len(),
                rows == rows_view(self.items@),
                profiles_view(out@) == saved_profiles(rows.take(i as int)),
            decreases self.items.len() - i,
        {
            let row = &self.items[i];
            proof {
                assert(rows.take(i + 1).drop_last() =~= rows.take(i as int));
                assert(rows.take(i + 1).last() == rows[i as int]);
            }
            upsert_profile(&mut out, &row.name, &row.database);
            i = i + 1;
        }
        proof {
            assert(rows.take(rows.len() as int) =~= rows);
        }
        proof {
            lemma_saved_names_unique(rows);
        }
        Some(Databases { default_database: selected, databases: out })
    }
}

impl ServerList {
    /// Handles a key.  Ctrl+C and keys that are not presses are not taken.
    /// With a popup open the key goes to it: the delete confirmation; the
    /// create form, where a plain Enter adds the profile and a plain Esc that
    /// the form does not take closes it; the edit form, where a plain Esc
    /// closes it and a plain Enter replaces the selected row (going through
    /// a switch of the client first where that row is the profile in use).
    /// Otherwise, plain keys: `j`/Down and `k`/Up move the selection, Enter
    /// switches to the selected profile, `d`, `c` and `e` open the delete,
    /// create and edit popups; any other key is not taken.  `selecting` and
    /// `line` describe the text area of the open form's field, `texts` the
    /// open form's texts.
    pub fn handle_key(
        &mut self,
        key: FieldKey,
        press: bool,
        plain: bool,
        selecting: bool,
        line: &str,
        texts: &FormTexts,
    ) -> (r: ServerOutcome)
        requires
            old(self).create_form.editing < 14,
            old(self).edit_form.editing < 14,
            moves(key) ==> old(self).items@.len() > 0 || old(self).selected is None,
        ensures
            final(self).create_form.editing < 14,
            final(self).edit_form.editing < 14,
            key is CtrlC || !press ==> r is NotTaken && rows_view(final(self).items@) == rows_view(
                old(self).items@) && final(self).selected == old(self).selected,
            !(key is CtrlC) && press && old(self).show_delete_popup ==> r is Delete,
            !(key is CtrlC) && press && !old(self).show_delete_popup
                && old(self).show_create_popup ==> (if plain && key is Enter {
                r is Created || r is Failed
            } else {
                r is FormEdit
            }),
            !(key is CtrlC) && press && !old(self).show_delete_popup
                && !old(self).show_create_popup && old(self).show_edit_popup ==> (if plain
                && key is Esc {
                r is Taken && !final(self).show_edit_popup
            } else if plain && key is Enter {
                r is Taken || r is Failed || r is Edited || r is EditNeedsSwitch
            } else {
                r is FormEdit
            }),
            !(key is CtrlC) && press && !old(self).show_delete_popup
                && !old(self).show_create_popup && !old(self).show_edit_popup ==> ({
                let len = old(self).items@.len();
                if !plain {
                    r is NotTaken
                } else if key == FieldKey::Char('j') || key is Down {
                    r is Taken && final(self).selected == Some(
                        wrap_next(old(self).selected, len) as usize,
                    )
                } else if key == FieldKey::Char('k') || key is Up {
                    r is Taken && final(self).selected == Some(
                        wrap_prev(old(self).selected, len) as usize,
                    )
                } else if key is Enter {
                    r is Switch && final(self).selected == old(self).selected
                } else if key == FieldKey::Char('d') {
                    r is Taken && final(self).show_delete_popup
                } else if key == FieldKey::Char('c') {
                    r is Taken && final(self).show_create_popup
                } else if key == FieldKey::Char('e') {
                    final(self).show_edit_popup && match old(self).selected {
                        Some(i) => if i < len {
                            r matches ServerOutcome::OpenEdit(t)
                                && crate::database_editor::texts_seq(t)
                                == crate::database_editor::texts_of(
                                rows_view(old(self).items@)[i as int],
                            ).1
                        } else {
                            r is Taken
                        },
                        None => r is Taken,
                    }
                } else {
                    r is NotTaken
                }
            }),
    {
        if let FieldKey::CtrlC = key {
            return ServerOutcome::NotTaken;
        }
        if !press {
            return ServerOutcome::NotTaken;
        }
        if self.show_delete_popup {
            return ServerOutcome::Delete(self.handle_delete_key(key, press, plain));
        }
        if self.show_create_popup {
            if plain && key == FieldKey::Enter {
                return match self.create_profile(texts) {
                    Ok(()) => ServerOutcome::Created,
                    Err(e) => ServerOutcome::Failed(e),
                };
            }
            let (taken, edit) = self.create_form.handle_key(key, press, selecting, line);
            if !taken && plain && key == FieldKey::Esc {
                self.show_create_popup = false;
            }
            return ServerOutcome::FormEdit(edit);
        }
        if self.show_edit_popup {
            if plain && key == FieldKey::Esc {
                self.show_edit_popup = false;
                return ServerOutcome::Taken;
            }
            if plain && key == FieldKey::Enter {
                let database = self.edit_form.to_database(texts);
                let name = self.edit_form.get_name(texts);
                if let Some(i) = self.selected {
                    if i < self.items.len() {
                        let data = Data::from_database(
                            self.items[i].selected.as_str(),
                            name.as_str(),
                            database,
                        );
                        if let Err(e) = self.valid_edit(&data) {
                            return ServerOutcome::Failed(e);
                        }
                        proof {
                            reveal_strlit("*");
                        }
                        if str_eq(data.selected.as_str(), "*") {
                            return ServerOutcome::EditNeedsSwitch(data);
                        }
                        self.commit_edit(data);
                        return ServerOutcome::Edited;
                    }
                }
                return ServerOutcome::Taken;
            }
            let (_taken, edit) = self.edit_form.handle_key(key, press, selecting, line);
            return ServerOutcome::FormEdit(edit);
        }
        if !plain {
            return ServerOutcome::NotTaken;
        }
        match key {
            FieldKey::Char('j') | FieldKey::Down => {
                self.next();
                ServerOutcome::Taken
            },
            FieldKey::Char('k') | FieldKey::Up => {
                self.previous();
                ServerOutcome::Taken
            },
            FieldKey::Enter => ServerOutcome::Switch,
            FieldKey::Char('d') => {
                self.show_delete_popup = true;
                ServerOutcome::Taken
            },
            FieldKey::Char('c') => {
                self.show_create_popup = true;
                ServerOutcome::Taken
            },
            FieldKey::Char('e') => {
                self.show_edit_popup = true;
                if let Some(i) = self.selected {
                    if i < self.items.len() {
                        let (form, texts) = Form::from_data(&self.items[i]);
                        self.edit_form = form.title("Edit");
                        return ServerOutcome::OpenEdit(texts);
                    }
                }
                ServerOutcome::Taken
            },
            _ => ServerOutcome::NotTaken,
        }
    }

    /// On start-up: profiles are saved on exit unless the application runs
    /// only once.
    pub fn init_config(&mut self, once: bool)
        ensures
            final(self).save_on_exit == !once,
            rows_view(final(self).items@) == rows_view(old(self).items@),
            final(self).create_form == old(self).create_form,
            final(self).edit_form == old(self).edit_form,
    {
        self.save_on_exit = !once;
    }
}

/// The texts of one column of the rows: 0 name, 1 location, 2 database,
/// 3 username, 4 TLS, 5 protocol.
pub open spec fn column(rows: Seq<DataView>, c: int) -> Seq<Seq<char>> {
    rows.map_values(
        |d: DataView|
            if c == 0 {
                d.name
            } else if c == 1 {
                d.location
            } else if c == 2 {
                d.db
            } else if c == 3 {
                d.username
            } else if c == 4 {
                d.use_tls
            } else {
                d.protocol
            },
    )
}

fn column_texts(items: &Vec<Data>, c: usize) -> (r: Vec<String>)
    requires
        c < 6,
    ensures
        r@.map_values(|t: String| t@) == column(rows_view(items@), c as int),
{
    let ghost rows = rows_view(items@);
    let mut out: Vec<String> = Vec::new();
    let mut i: usize = 0;
    while i < items.len()
        invariant
            i <= items.len(),
            c < 6,
            rows == rows_view(items@),
            out@.map_values(|t: String| t@) == column(rows, c as int).take(i as int),
        decreases items.len() - i,
    {
        let d = &items[i];
        let t = if c == 0 {
            d.name.clone()
        } else if c == 1 {
            d.location.clone()
        } else if c == 2 {
            d.db.clone()
        } else if c == 3 {
            d.username.clone()
        } else if c == 4 {
            d.use_tls.clone()
        } else {
            d.protocol.clone()
        };
        let ghost prev = out@;
        out.push(t);
        proof {
            assert(out@.map_values(|t: String| t@) =~= prev.map_values(|t: String| t@).push(t@));
            assert(column(rows, c as int).take(i + 1) =~= column(rows, c as int).take(i as int).push(
                column(rows, c as int)[i as int],
            ));
        }
        i = i + 1;
    }
    proof {
        assert(column(rows, c as int).take(items@.len() as int) =~= column(rows, c as int));
    }
    out
}

/// The widths of the list's columns: one for the mark, then the widest
/// name, location, database, username, TLS flag and protocol (each cut to
/// 16 bits).
pub fn constraint_len_calculator(items: &Vec<Data>) -> (r: (u16, u16, u16, u16, u16, u16, u16))
    ensures
        r.0 == 1,
        r.1 as nat == max_width(column(rows_view(items@), 0)) % 65536,
        r.2 as nat == max_width(column(rows_view(items@), 1)) % 65536,
        r.3 as nat == max_width(column(rows_view(items@), 2)) % 65536,
        r.4 as nat == max_width(column(rows_view(items@), 3)) % 65536,
        r.5 as nat == max_width(column(rows_view(items@), 4)) % 65536,
        r.6 as nat == max_width(column(rows_view(items@), 5)) % 65536,
{
    (
        1,
        widest(&column_texts(items, 0)),
        widest(&column_texts(items, 1)),
        widest(&column_texts(items, 2)),
        widest(&column_texts(items, 3)),
        widest(&column_texts(items, 4)),
        widest(&column_texts(items, 5)),
    )
}

fn upsert_profile(out: &mut Vec<(String, Database)>, name: &String, database: &Database)
    ensures
        profiles_view(final(out)@) == upsert(profiles_view(old(out)@), name@, database@),
{
    let ghost m = profiles_view(out@);
    let mut k: usize = 0;
    let mut found = false;
    while k < out.len() && !found
        invariant
            k <= out.len(),
            m == profiles_view(out@),
            out@ == old(out)@,
            found ==> k < out.len() && find_name(m, name@) == k as int,
            !found ==> find_name(m.take(k as int), name@) == -1,
        decreases out.len() - k + (if found { 0int } else { 1int }),
    {
        proof {
            assert(m.take(k + 1).drop_last() =~= m.take(k as int));
        }
        if str_eq(out[k].0.as_str(), name.as_str()) {
            found = true;
            proof {
                lemma_find_name_prefix(m, name@, k as int);
            }
        } else {
            k = k + 1;
        }
    }
    if found {
        out.set(k, (name.clone(), Database::from(database)));
        proof {
            assert(profiles_view(out@) =~= m.update(k as int, (name@, database@)));
        }
    } else {
        proof {
            assert(m.take(m.len() as int) =~= m);
        }
        out.push((name.clone(), Database::from(database)));
        proof {
            assert(profiles_view(out@) =~= m.push((name@, database@)));
        }
    }
}

proof fn lemma_find_name(m: Seq<(Seq<char>, DatabaseView)>, name: Seq<char>)
    ensures
        -1 <= find_name(m, name) < m.len(),
        find_name(m, name) >= 0 ==> m[find_name(m, name)].0 == name,
        find_name(m, name) < 0 ==> forall|j: int| 0 <= j < m.len() ==> m[j].0 != name,
    decreases m.len(),
{
    if m.len() > 0 {
        lemma_find_name(m.drop_last(), name);
        if find_name(m.drop_last(), name) >= 0 {
            assert(m[find_name(m, name)] == m.drop_last()[find_name(m, name)]);
        } else if find_name(m, name) < 0 {
            assert forall|j: int| 0 <= j < m.len() implies m[j].0 != name by {
                if j < m.len() - 1 {
                    assert(m[j] == m.drop_last()[j]);
                }
            }
        }
    }
}

proof fn lemma_upsert_unique(m: Seq<(Seq<char>, DatabaseView)>, name: Seq<char>, d: DatabaseView)
    requires
        names_unique(m),
    ensures
        names_unique(upsert(m, name, d)),
{
    lemma_find_name(m, name);
    let u = upsert(m, name, d);
    let k = find_name(m, name);
    assert forall|a: int, b: int| 0 <= a < b < u.len() implies #[trigger] u[a].0 != #[trigger] u[b].0 by {
        if k >= 0 {
            assert(u[a].0 == m[a].0);
            assert(u[b].0 == m[b].0);
        } else {
            if b == m.len() {
                assert(u[a] == m[a]);
            } else {
                assert(u[a] == m[a]);
                assert(u[b] == m[b]);
            }
        }
    }
}

/// The profiles saved from any rows never share a name.
pub proof fn lemma_saved_names_unique(rows: Seq<DataView>)
    ensures
        names_unique(saved_profiles(rows)),
    decreases rows.len(),
{
    if rows.len() > 0 {
        lemma_saved_names_unique(rows.drop_last());
        lemma_upsert_unique(saved_profiles(rows.drop_last()), rows.last().name, rows.last().database);
    }
}

proof fn lemma_find_name_prefix(m: Seq<(Seq<char>, DatabaseView)>, name: Seq<char>, k: int)
    requires
        0 <= k < m.len(),
        find_name(m.take(k), name) == -1,
        m[k].0 == name,
    ensures
        find_name(m, name) == k,
    decreases m.len(),
{
    if k < m.len() - 1 {
        assert(m.drop_last().take(k) =~= m.take(k));
        lemma_find_name_prefix(m.drop_last(), name, k);
    } else {
        assert(m.drop_last() =~= m.take(k));
    }
}

proof fn lemma_first_marked_prefix(rows: Seq<DataView>, k: int)
    requires
        0 <= k < rows.len(),
        first_marked(rows.take(k)) is None,
        rows[k].selected == "*"@,
    ensures
        first_marked(rows) == Some(k),
    decreases rows.len(),
{
    if k < rows.len() - 1 {
        assert(rows.drop_last().take(k) =~= rows.take(k));
        lemma_first_marked_prefix(rows.drop_last(), k);
    } else {
        assert(rows.drop_last() =~= rows.take(k));
    }
}

/// The key hints of the server list's footer: those of the open popup, or
/// of the list.
pub open spec fn server_hints(l: ServerList) -> Seq<(Seq<char>, Seq<char>)> {
    if l.show_delete_popup {
        seq![("Enter"@, "Confirm"@), ("Esc"@, "Close"@)]
    } else if l.show_create_popup {
        crate::database_editor::form_hints(l.create_form.editing) + seq![("Enter"@, "Create"@), ("Esc"@, "Close"@)]
    } else if l.show_edit_popup {
        crate::database_editor::form_hints(l.edit_form.editing) + seq![("Enter"@, "Update"@), ("Esc"@, "Close"@)]
    } else {
        seq![
            ("↑/j"@, "Up"@),
            ("↓/k"@, "Down"@),
            ("Enter"@, "Choose"@),
            ("c"@, "Create"@),
            ("d"@, "Delete"@),
            ("e"@, "Edit"@),
            ("Esc"@, "Close"@),
        ]
    }
}

impl ServerList {
    /// The key hints of the server list's footer.
    pub fn footer_elements(&self) -> (r: Vec<(String, String)>)
        ensures
            hints(r@) == server_hints(*self),
    {
        let mut v: Vec<(String, String)> = Vec::new();
        if self.show_delete_popup {
            push_hint(&mut v, "Enter", "Confirm");
            push_hint(&mut v, "Esc", "Close");
        } else if self.show_create_popup {
            v = self.create_form.footer_elements();
            push_hint(&mut v, "Enter", "Create");
            push_hint(&mut v, "Esc", "Close");
        } else if self.show_edit_popup {
            v = self.edit_form.footer_elements();
            push_hint(&mut v, "Enter", "Update");
            push_hint(&mut v, "Esc", "Close");
        } else {
            push_hint(&mut v, "↑/j", "Up");
            push_hint(&mut v, "↓/k", "Down");
            push_hint(&mut v, "Enter", "Choose");
            push_hint(&mut v, "c", "Create");
            push_hint(&mut v, "d", "Delete");
            push_hint(&mut v, "e", "Edit");
            push_hint(&mut v, "Esc", "Close");
        }
        proof {
            assert(hints(v@) =~= server_hints(*self));
        }
        v
    }
}

impl ServerList {
    /// A mouse event: an open form takes it and closes on a release of the
    /// left button (the form itself takes none); over the list it is taken.
    pub fn handle_mouse(&mut self, left_up: bool, within_list: bool) -> (r: bool)
        ensures
            final(self).show_delete_popup == old(self).show_delete_popup,
            final(self).selected == old(self).selected,
            final(self).items@ == old(self).items@,
            old(self).show_create_popup ==> r && final(self).show_create_popup == !left_up
                && final(self).show_edit_popup == old(self).show_edit_popup,
            !old(self).show_create_popup && old(self).show_edit_popup ==> r && final(self).show_edit_popup
                == !left_up && !final(self).show_create_popup,
            !old(self).show_create_popup && !old(self).show_edit_popup ==> r == within_list
                && !final(self).show_create_popup && !final(self).show_edit_popup,
    {
        if self.show_create_popup {
            if left_up {
                self.show_create_popup = false;
            }
            return true;
        }
        if self.show_edit_popup {
            if left_up {
                self.show_edit_popup = false;
            }
            return true;
        }
        within_list
    }
}

} // verus!
