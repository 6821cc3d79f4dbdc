use vstd::prelude::*;

use crate::catalog::{
    all_records_valid, catalog_of, catalog_row, description_text, sorted_names_of, user_row,
    ConfiguredGitUsers,
};
use crate::config::{ConfigError, GitUser, LoadedConfiguration};

verus! {

/// The text that tabled renders for these rows (the first is the header) in
/// its modern rounded style.
pub uninterp spec fn rounded_table_of(rows: Seq<Seq<Seq<char>>>) -> Seq<char>;

/// Relies on `tabled::builder::Builder::from`, `Builder::build`,
/// `Style::modern_rounded` and `Table::to_string`: the rendered table depends on
/// the cells alone.
#[verifier::external_body]
fn render_rounded_table(rows: Vec<Vec<String>>) -> (r: String)
    ensures
        r@ == rounded_table_of(rows@.map_values(|row: Vec<String>| row@.map_values(|c: String| c@))),
{
    let mut table = tabled::builder::Builder::from(rows).build();
    table.with(tabled::settings::Style::modern_rounded());
    table.to_string()
}

/// The header row of the listing.
pub open spec fn header_row() -> Seq<Seq<char>> {
    seq!["name"@, "email"@, "description"@]
}

/// The rows of the listing: the header, then one row per user in the given order.
pub open spec fn rows_of(users: Seq<GitUser>) -> Seq<Seq<Seq<char>>> {
    seq![header_row()] + users.map_values(|u: GitUser| user_row(u))
}

pub open spec fn cells_view(rows: Seq<Vec<String>>) -> Seq<Seq<Seq<char>>> {
    rows.map_values(|row: Vec<String>| row@.map_values(|c: String| c@))
}

fn row3(a: &str, b: &str, c: &str) -> (r: Vec<String>)
    ensures
        r@.map_values(|s: String| s@) == seq![a@, b@, c@],
{
    let mut r: Vec<String> = Vec::new();
    r.push(a.to_owned());
    r.push(b.to_owned());
    r.push(c.to_owned());
    assert(r@.map_values(|s: String| s@) =~= seq![a@, b@, c@]);
    r
}

/// The cells of the listing of `git_users`, header first.
pub fn table_rows(git_users: &Vec<GitUser>) -> (r: Vec<Vec<String>>)
    ensures
        cells_view(r@) == rows_of(git_users@),
{
    let mut r: Vec<Vec<String>> = Vec::new();
    r.push(row3("name", "email", "description"));
    let mut i: usize = 0;
    while i < git_users.len()
        invariant
            i <= git_users@.len(),
            r@.len() == i + 1,
            forall|j: int| 0 <= j <= i ==> #[trigger] cells_view(r@)[j] == rows_of(git_users@)[j],
        decreases git_users@.len() - i,
    {
        let u = &git_users[i];
        let row = match &u.description {
            Some(d) => row3(u.name.as_str(), u.email.as_str(), d.as_str()),
            None => {
                proof {
                    reveal_strlit("");
                }
                row3(u.name.as_str(), u.email.as_str(), "")
            },
        };
        assert(*u == git_users@[i as int]);
        assert(row@.map_values(|s: String| s@)[2] == description_text(u.description));
        assert(row@.map_values(|s: String| s@) =~= user_row(git_users@[i as int]));
        let ghost before = r@;
        r.push(row);
        proof {
            assert forall|j: int| 0 <= j <= i + 1 implies #[trigger] cells_view(r@)[j]
                == rows_of(git_users@)[j] by {
                if j <= i {
                    assert(r@[j] == before[j]);
                    assert(cells_view(before)[j] == rows_of(git_users@)[j]);
                } else {
                    assert(r@[j] == row);
                    assert(rows_of(git_users@)[j] == user_row(git_users@[j - 1]));
                }
            }
        }
        i = i + 1;
    }
    assert(cells_view(r@) =~= rows_of(git_users@));
    r
}

/// Renders `git_users` as a table with the columns name, email and description,
/// in the given order.
pub fn make_table(git_users: Vec<GitUser>) -> (r: String)
    ensures
        r@ == rounded_table_of(rows_of(git_users@)),
{
    let rows = table_rows(&git_users);
    render_rounded_table(rows)
}

/// The listing of the configured identities: validated, one row per name,
/// sorted by name, the last record of a name winning.
pub fn show_configured_users_list(cfg: LoadedConfiguration) -> (r: Result<String, ConfigError>)
    ensures
        r is Ok <==> all_records_valid(cfg.users@),
        r is Ok ==> exists|names: Seq<Seq<char>>|
            #[trigger] sorted_names_of(names, catalog_of(cfg.users@)) && r->Ok_0@
                == rounded_table_of(
                seq![header_row()] + names.map_values(
                    |k: Seq<char>| catalog_row(catalog_of(cfg.users@), k),
                ),
            ),
{
    let users = ConfiguredGitUsers::try_from(cfg)?;
    let listed = users.to_users();
    let r = make_table(listed);
    proof {
        assert(rows_of(listed@) =~= seq![header_row()] + users.names().map_values(
            |k: Seq<char>| catalog_row(users@, k),
        ));
    }
    Ok(r)
}

} // verus!
