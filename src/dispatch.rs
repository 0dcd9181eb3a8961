//! Routing one invocation to its command and deciding what it will do.

use vstd::prelude::*;

use crate::archive::{zip_job, ArchiveJob, JobModel, Zip};
use crate::commands::{merged_fields, MyCommand};
use crate::config::{ConfigDocument, ConfigError, EntryModel, FieldFault};
use crate::date::{compact_date, Date};
use crate::mail::{mail_plan, Mail, MailModel, MailPlan};
use crate::scaffold::{scaffold_plan, New, ScaffoldModel, ScaffoldPlan};

verus! {

/// The subcommands.
#[derive(Debug, Clone, PartialEq, Eq)]
pub enum Commands {
    New(New),
    Zip(Zip),
    Mail(Mail),
}

/// The mathematical form of a `Plan`.
pub enum PlanModel {
    Scaffold(ScaffoldModel),
    Archive(JobModel),
    Mail(MailModel),
}

/// What an invocation is to do, decided before any file or network work.
#[derive(Debug, Clone, PartialEq, Eq)]
pub enum Plan {
    Scaffold(ScaffoldPlan),
    Archive(ArchiveJob),
    Mail(MailPlan),
}

impl View for Plan {
    type V = PlanModel;

    open spec fn view(&self) -> PlanModel {
        match self {
            Plan::Scaffold(p) => PlanModel::Scaffold(p@),
            Plan::Archive(j) => PlanModel::Archive(j@),
            Plan::Mail(p) => PlanModel::Mail(p@),
        }
    }
}

/// The plan of `command` against the document, on the day written `stamp`.
pub open spec fn planned(command: Commands, doc: Map<Seq<char>, EntryModel>, stamp: Seq<char>) -> Result<
    PlanModel,
    FieldFault,
> {
    match command {
        Commands::New(c) => match merged_fields(doc, "new"@, c.overrides_spec()) {
            Err(f) => Err(f),
            Ok(fields) => match scaffold_plan(fields) {
                Err(f) => Err(f),
                Ok(p) => Ok(PlanModel::Scaffold(p)),
            },
        },
        Commands::Zip(c) => match merged_fields(doc, "zip"@, c.overrides_spec()) {
            Err(f) => Err(f),
            Ok(fields) => match zip_job(fields, doc, stamp) {
                Err(f) => Err(f),
                Ok(j) => Ok(PlanModel::Archive(j)),
            },
        },
        Commands::Mail(c) => match merged_fields(doc, "mail"@, c.overrides_spec()) {
            Err(f) => Err(f),
            Ok(fields) => match mail_plan(fields, doc, stamp) {
                Err(f) => Err(f),
                Ok(p) => Ok(PlanModel::Mail(p)),
            },
        },
    }
}

/// The plan of `command`, with file names stamped with today's date.
pub fn run(command: &Commands, doc: &ConfigDocument) -> (r: Result<Plan, ConfigError>)
    ensures
        exists|d: Date|
            d.wf() && match r {
                Ok(p) => planned(*command, doc@, compact_date(d)) == Ok::<PlanModel, FieldFault>(
                    p@,
                ),
                Err(e) => planned(*command, doc@, compact_date(d)) == Err::<
                    PlanModel,
                    FieldFault,
                >(e@),
            },
{
    let d = Date::now();
    match command {
        Commands::New(c) => {
            let fields = match c.parse_field(doc) {
                Ok(f) => f,
                Err(e) => {
                    return Err(e);
                },
            };
            match New::project_plan(&fields) {
                Ok(p) => Ok(Plan::Scaffold(p)),
                Err(e) => Err(e),
            }
        },
        Commands::Zip(c) => {
            let fields = match c.parse_field(doc) {
                Ok(f) => f,
                Err(e) => {
                    return Err(e);
                },
            };
            match Zip::archive_job(&fields, doc, &d) {
                Ok(j) => Ok(Plan::Archive(j)),
                Err(e) => Err(e),
            }
        },
        Commands::Mail(c) => {
            let fields = match c.parse_field(doc) {
                Ok(f) => f,
                Err(e) => {
                    return Err(e);
                },
            };
            match Mail::build_plan(&fields, doc, &d) {
                Ok(p) => Ok(Plan::Mail(p)),
                Err(e) => Err(e),
            }
        },
    }
}

} // verus!
