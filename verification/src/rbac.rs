//! Listing the roles of the access control of the registry service.

use vstd::prelude::*;
use crate::error::{CliError, CliErrorView};
use crate::text::views_of;

verus! {

/// A role as the service lists it.
#[derive(Debug, PartialEq, Eq)]
pub struct Role {
    pub role_id: String,
    pub display_name: String,
    pub permissions: Vec<String>,
}

/// What a listing shows of a role.
pub struct RoleView {
    pub role_id: Seq<char>,
    pub display_name: Seq<char>,
}

impl View for Role {
    type V = RoleView;

    open spec fn view(&self) -> RoleView {
        RoleView { role_id: self.role_id@, display_name: self.display_name@ }
    }
}

/// What is to be shown to the user.
#[derive(Debug, PartialEq, Eq)]
pub enum RoleOutput {
    /// Lines of comma-separated values, to be printed one by one.
    Csv(Vec<String>),
    /// The rows of a table, the first of which is its header.
    Table(Vec<Vec<String>>),
    /// Nothing.
    Nothing,
}

/// A `RoleOutput` over character sequences.
pub enum RoleOutputView {
    Csv(Seq<Seq<char>>),
    Table(Seq<Seq<Seq<char>>>),
    Nothing,
}

impl View for RoleOutput {
    type V = RoleOutputView;

    open spec fn view(&self) -> RoleOutputView {
        match self {
            RoleOutput::Csv(lines) => RoleOutputView::Csv(views_of(lines@)),
            RoleOutput::Table(rows) => RoleOutputView::Table(rows_view(rows@)),
            RoleOutput::Nothing => RoleOutputView::Nothing,
        }
    }
}

/// One entry of the list of roles as it was fetched: a role, or the error
/// that ended the fetching.
pub open spec fn fetched_view(fetched: Result<Role, CliError>) -> Result<RoleView, CliErrorView> {
    match fetched {
        Ok(role) => Ok(role@),
        Err(error) => Err(error@),
    }
}

/// The entries of the list of roles as it was fetched, in order.
pub open spec fn fetched_views(fetched: Seq<Result<Role, CliError>>) -> Seq<
    Result<RoleView, CliErrorView>,
> {
    fetched.map_values(|entry: Result<Role, CliError>| fetched_view(entry))
}

/// The rows of a table over character sequences.
pub open spec fn rows_view(rows: Seq<Vec<String>>) -> Seq<Seq<Seq<char>>> {
    rows.map_values(|row: Vec<String>| views_of(row@))
}

/// The format that was asked for, if any.
pub open spec fn format_view(format: Option<&str>) -> Option<Seq<char>> {
    match format {
        Some(format) => Some(format@),
        None => None,
    }
}

/// Where the first error stands among the fetched entries; their number, if
/// there is none.
pub open spec fn failure_index(fetched: Seq<Result<RoleView, CliErrorView>>) -> int
    decreases fetched.len(),
{
    if fetched.len() == 0 {
        0
    } else if fetched[0] is Err {
        0
    } else {
        1 + failure_index(fetched.drop_first())
    }
}

/// What `failure_index` finds: only roles stand before it, and an error
/// stands at it unless it is the end.
pub proof fn lemma_failure_index(fetched: Seq<Result<RoleView, CliErrorView>>, at: int)
    requires
        0 <= at <= fetched.len(),
        forall|j: int| 0 <= j < at ==> fetched[j] is Ok,
        at < fetched.len() ==> fetched[at] is Err,
    ensures
        failure_index(fetched) == at,
    decreases fetched.len(),
{
    if fetched.len() > 0 && at > 0 {
        assert(fetched[0] is Ok);
        let rest = fetched.drop_first();
        assert forall|j: int| 0 <= j < at - 1 implies rest[j] is Ok by {
            assert(rest[j] == fetched[j + 1]);
        }
        lemma_failure_index(rest, at - 1);
    }
}

/// The line of a role: its identifier, a comma, its display name.
pub open spec fn csv_line(role: RoleView) -> Seq<char> {
    role.role_id + ","@ + role.display_name
}

/// The row of a role: its identifier, then its display name.
pub open spec fn table_row(role: RoleView) -> Seq<Seq<char>> {
    seq![role.role_id, role.display_name]
}

/// What is shown for a list of roles, and the error that the listing ends
/// with, if any.
///
/// As comma-separated values, asked for by the format `csv`, the header
/// line is shown, then one line for each role that stands before the first
/// error. In any other format a table is shown, its header first, and only
/// where the list holds no error; with one, nothing is shown.
pub open spec fn listed(
    format: Option<Seq<char>>,
    fetched: Seq<Result<RoleView, CliErrorView>>,
) -> (RoleOutputView, Option<CliErrorView>) {
    let stop = failure_index(fetched);
    let error = if stop < fetched.len() {
        Some(fetched[stop]->Err_0)
    } else {
        None
    };
    if format == Some("csv"@) {
        (
            RoleOutputView::Csv(
                seq!["ID,DISPLAY NAME"@] + Seq::new(
                    stop as nat,
                    |k: int| csv_line(fetched[k]->Ok_0),
                ),
            ),
            error,
        )
    } else if error is Some {
        (RoleOutputView::Nothing, error)
    } else {
        (
            RoleOutputView::Table(
                seq![seq!["ID"@, "DISPLAY NAME"@]] + Seq::new(
                    stop as nat,
                    |k: int| table_row(fetched[k]->Ok_0),
                ),
            ),
            error,
        )
    }
}

/// Lists the roles that the service knows.
pub struct ListRolesAction;

impl ListRolesAction {
    /// Prepares what to show for the roles that were fetched. The format
    /// is `human` where none is given.
    pub fn run(&mut self, format: Option<&str>, roles: &Vec<Result<Role, CliError>>) -> (shown: (
        RoleOutput,
        Result<(), CliError>,
    ))
        ensures
            shown.0@ == listed(format_view(format), fetched_views(roles@)).0,
            match shown.1 {
                Ok(()) => listed(format_view(format), fetched_views(roles@)).1 is None,
                Err(error) => listed(format_view(format), fetched_views(roles@)).1 == Some(
                    error@,
                ),
            },
    {
        let ghost fetched = fetched_views(roles@);
        let format = match format {
            Some(format) => String::from_str(format),
            None => String::from_str("human"),
        };
        let csv = format == String::from_str("csv");
        proof {
            reveal_strlit("human");
            reveal_strlit("csv");
            assert("human"@ != "csv"@) by {
                assert("human"@.len() != "csv"@.len());
            }
        }
        let mut lines: Vec<String> = Vec::new();
        let mut rows: Vec<Vec<String>> = Vec::new();
        lines.push(String::from_str("ID,DISPLAY NAME"));
        assert(views_of(lines@) =~= seq!["ID,DISPLAY NAME"@] + Seq::new(
            0nat,
            |k: int| csv_line(fetched[k]->Ok_0),
        ));
        let mut header: Vec<String> = Vec::new();
        header.push(String::from_str("ID"));
        header.push(String::from_str("DISPLAY NAME"));
        assert(views_of(header@) =~= seq!["ID"@, "DISPLAY NAME"@]);
        rows.push(header);
        assert(rows_view(rows@) =~= seq![seq!["ID"@, "DISPLAY NAME"@]] + Seq::new(
            0nat,
            |k: int| table_row(fetched[k]->Ok_0),
        ));
        let mut failure: Option<CliError> = None;
        let mut i: usize = 0;
        while i < roles.len()
            invariant_except_break
                failure is None,
            invariant
                i <= roles.len(),
                fetched == fetched_views(roles@),
                lines@.len() == i + 1,
                rows@.len() == i + 1,
                forall|j: int| 0 <= j < i ==> fetched[j] is Ok,
                failure matches Some(error) ==> i < roles.len() && fetched[i as int] == Err::<
                    RoleView,
                    _,
                >(error@),
                views_of(lines@) == seq!["ID,DISPLAY NAME"@] + Seq::new(
                    i as nat,
                    |k: int| csv_line(fetched[k]->Ok_0),
                ),
                rows_view(rows@) == seq![seq!["ID"@, "DISPLAY NAME"@]] + Seq::new(
                    i as nat,
                    |k: int| table_row(fetched[k]->Ok_0),
                ),
            ensures
                failure is None ==> i == roles.len(),
            decreases roles.len() - i,
        {
            match &roles[i] {
                Ok(role) => {
                    let line = role.role_id.clone().concat(",").concat(role.display_name.as_str());
                    let mut row: Vec<String> = Vec::new();
                    row.push(role.role_id.clone());
                    row.push(role.display_name.clone());
                    proof {
                        assert(fetched[i as int] == Ok::<_, CliErrorView>(role@));
                        assert(views_of(row@) =~= table_row(role@));
                        let shown = Seq::new(i as nat, |k: int| csv_line(fetched[k]->Ok_0));
                        let longer = Seq::new((i + 1) as nat, |k: int| csv_line(fetched[k]->Ok_0));
                        assert(longer =~= shown.push(line@));
                        assert(views_of(lines@.push(line)) =~= views_of(
                            lines@,
                        ).push(line@));
                        assert(views_of(lines@.push(line)) =~= seq![
                            "ID,DISPLAY NAME"@,
                        ] + longer);
                        let listed = Seq::new(i as nat, |k: int| table_row(fetched[k]->Ok_0));
                        let taller = Seq::new((i + 1) as nat, |k: int| table_row(fetched[k]->Ok_0));
                        assert(taller =~= listed.push(table_row(role@)));
                        assert(rows_view(rows@.push(row)) =~= rows_view(rows@).push(
                            table_row(role@),
                        ));
                        assert(rows_view(rows@.push(row)) =~= seq![
                            seq!["ID"@, "DISPLAY NAME"@],
                        ] + taller);
                    }
                    lines.push(line);
                    rows.push(row);
                },
                Err(error) => {
                    failure = Some(error.clone());
                    break ;
                },
            }
            i += 1;
        }
        proof {
            lemma_failure_index(fetched, i as int);
        }
        if csv {
            match failure {
                Some(error) => (RoleOutput::Csv(lines), Err(error)),
                None => (RoleOutput::Csv(lines), Ok(())),
            }
        } else {
            match failure {
                Some(error) => (RoleOutput::Nothing, Err(error)),
                None => (RoleOutput::Table(rows), Ok(())),
            }
        }
    }
}

} // verus!
