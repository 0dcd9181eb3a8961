//! Archiving a directory: the job a `zip` invocation describes, and what to
//! do with each entry met while walking the root.

use vstd::prelude::*;

use crate::date::{compact_date, Date};
use crate::commands::{merged_fields, MyCommand};
use crate::config::{
    optional_text_lookup, table_lookup, text_list_lookup, text_lookup, ConfigDocument,
    ConfigError, ConfigValue, EntryModel, FieldFault, FieldMap, ValueModel,
};
use crate::path_filter::{
    archive_name, archive_path, is_included, lemma_descendants_excluded, names, path_included,
};
use crate::text::{push_char, same_text};

verus! {

/// `<class>_<user>_<stamp>`: the stem of submission file names and subjects.
pub open spec fn submission_stem(class: Seq<char>, user: Seq<char>, stamp: Seq<char>) -> Seq<
    char,
> {
    class + seq!['_'] + user + seq!['_'] + stamp
}

/// The default archive name `<class>_<user>_<stamp>.zip`, from the
/// `user_name` and `class_name` of the `[global]` table.
pub open spec fn default_archive_name(doc: Map<Seq<char>, EntryModel>, stamp: Seq<char>) -> Result<
    Seq<char>,
    FieldFault,
> {
    match table_lookup(doc, "global"@) {
        Err(f) => Err(f),
        Ok(g) => match text_lookup(g, "user_name"@) {
            Err(f) => Err(f),
            Ok(user) => match text_lookup(g, "class_name"@) {
                Err(f) => Err(f),
                Ok(class) => Ok(submission_stem(class, user, stamp) + ".zip"@),
            },
        },
    }
}

/// The archive password: the `password` of the `[zip]` table when it is
/// there and not empty.
pub open spec fn archive_password(doc: Map<Seq<char>, EntryModel>) -> Result<
    Option<Seq<char>>,
    FieldFault,
> {
    match table_lookup(doc, "zip"@) {
        Err(f) => Err(f),
        Ok(z) => match optional_text_lookup(z, "password"@) {
            Err(f) => Err(f),
            Ok(Some(p)) => Ok(
                if p.len() > 0 {
                    Some(p)
                } else {
                    None
                },
            ),
            Ok(None) => Ok(None),
        },
    }
}

/// The mathematical form of an `ArchiveJob`.
pub struct JobModel {
    pub root: Seq<char>,
    pub ignore: Seq<Seq<char>>,
    pub file_name: Seq<char>,
    pub password: Option<Seq<char>>,
}

/// The job of a `zip` invocation, from its merged fields and the document.
pub open spec fn zip_job(
    fields: Map<Seq<char>, ValueModel>,
    doc: Map<Seq<char>, EntryModel>,
    stamp: Seq<char>,
) -> Result<JobModel, FieldFault> {
    match text_lookup(fields, "dir_path"@) {
        Err(f) => Err(f),
        Ok(root) => match text_list_lookup(fields, "ignore"@) {
            Err(f) => Err(f),
            Ok(ignore) => match default_archive_name(doc, stamp) {
                Err(f) => Err(f),
                Ok(file_name) => match archive_password(doc) {
                    Err(f) => Err(f),
                    Ok(password) => Ok(JobModel { root, ignore, file_name, password }),
                },
            },
        },
    }
}

/// What becomes of one entry met while walking the root.
pub enum EntryPlan {
    Skip,
    Directory(Seq<char>),
    File(Seq<char>),
}

/// An entry is skipped when it is the root itself, the archive being
/// written, or excluded by the filter; otherwise it is stored under its
/// relative path with forward slashes.
pub open spec fn entry_plan(job: JobModel, rel: Seq<char>, sep: char, is_dir: bool) -> EntryPlan {
    if rel.len() == 0 || rel == job.file_name || !path_included(rel, sep, job.ignore) {
        EntryPlan::Skip
    } else if is_dir {
        EntryPlan::Directory(archive_path(rel, sep))
    } else {
        EntryPlan::File(archive_path(rel, sep))
    }
}

/// An archive to write: the directory walked, the names to leave out, the
/// archive file's name and the password, if any, to encrypt entries with.
#[derive(Debug, Clone, PartialEq, Eq)]
pub struct ArchiveJob {
    pub root: String,
    pub ignore: Vec<String>,
    pub file_name: String,
    pub password: Option<String>,
}

impl View for ArchiveJob {
    type V = JobModel;

    open spec fn view(&self) -> JobModel {
        JobModel {
            root: self.root@,
            ignore: names(self.ignore@),
            file_name: self.file_name@,
            password: match self.password {
                Some(p) => Some(p@),
                None => None,
            },
        }
    }
}

/// The step to take for one walked entry.
#[derive(Debug, Clone, PartialEq, Eq)]
pub enum EntryAction {
    Skip,
    /// Record an explicit directory entry under this name.
    AddDirectory(String),
    /// Store the file's bytes under this name.
    AddFile(String),
}

impl View for EntryAction {
    type V = EntryPlan;

    open spec fn view(&self) -> EntryPlan {
        match self {
            EntryAction::Skip => EntryPlan::Skip,
            EntryAction::AddDirectory(n) => EntryPlan::Directory(n@),
            EntryAction::AddFile(n) => EntryPlan::File(n@),
        }
    }
}

impl ArchiveJob {
    /// What to do with the entry at `relative` (a path below the root whose
    /// segments are separated by `sep`).
    pub fn plan_entry(&self, relative: &str, sep: char, is_dir: bool) -> (r: EntryAction)
        ensures
            r@ == entry_plan(self@, relative@, sep, is_dir),
    {
        if relative.unicode_len() == 0 || same_text(relative, self.file_name.as_str())
            || !is_included(relative, sep, &self.ignore) {
            EntryAction::Skip
        } else if is_dir {
            EntryAction::AddDirectory(archive_name(relative, sep))
        } else {
            EntryAction::AddFile(archive_name(relative, sep))
        }
    }
}

/// Below an excluded path nothing is stored: the whole subtree is left out.
pub proof fn lemma_excluded_subtree_skipped(
    job: JobModel,
    dir: Seq<char>,
    rest: Seq<char>,
    sep: char,
    is_dir: bool,
)
    requires
        !path_included(dir, sep, job.ignore),
    ensures
        entry_plan(job, dir, sep, is_dir) is Skip,
        entry_plan(job, dir.push(sep) + rest, sep, is_dir) is Skip,
{
    lemma_descendants_excluded(dir, rest, sep, job.ignore);
}

/// Every entry that passes the filter is stored under its relative path with
/// forward slashes; a directory is stored as an entry of its own, so an empty
/// directory is kept.
pub proof fn lemma_included_entry_kept(job: JobModel, rel: Seq<char>, sep: char, is_dir: bool)
    requires
        rel.len() > 0,
        rel != job.file_name,
        path_included(rel, sep, job.ignore),
    ensures
        is_dir ==> entry_plan(job, rel, sep, is_dir) == EntryPlan::Directory(archive_path(rel, sep)),
        !is_dir ==> entry_plan(job, rel, sep, is_dir) == EntryPlan::File(archive_path(rel, sep)),
{
}

/// `<class>_<user>_<stamp>`.
pub fn submission_name(class: &str, user: &str, stamp: &str) -> (r: String)
    ensures
        r@ == submission_stem(class@, user@, stamp@),
{
    let mut s = class.to_string();
    push_char(&mut s, '_');
    s.append(user);
    push_char(&mut s, '_');
    s.append(stamp);
    assert(s@ =~= submission_stem(class@, user@, stamp@));
    s
}

/// The default archive name for the day `date`.
pub fn default_archive_name_on(doc: &ConfigDocument, date: &Date) -> (r: Result<
    String,
    ConfigError,
>)
    ensures
        match r {
            Ok(s) => default_archive_name(doc@, compact_date(*date)) == Ok::<Seq<char>, FieldFault>(
                s@,
            ),
            Err(e) => default_archive_name(doc@, compact_date(*date)) == Err::<
                Seq<char>,
                FieldFault,
            >(e@),
        },
{
    let global = match doc.table("global") {
        Ok(t) => t,
        Err(e) => {
            return Err(e);
        },
    };
    let user = match global.text("user_name") {
        Ok(s) => s,
        Err(e) => {
            return Err(e);
        },
    };
    let class = match global.text("class_name") {
        Ok(s) => s,
        Err(e) => {
            return Err(e);
        },
    };
    let stamp = date.compact_text();
    let mut name = submission_name(class.as_str(), user.as_str(), stamp.as_str());
    name.append(".zip");
    Ok(name)
}

/// The default archive name for today.
pub fn get_default_zip_file_name(doc: &ConfigDocument) -> (r: Result<String, ConfigError>)
    ensures
        r is Ok <==> default_archive_name(doc@, Seq::empty()) is Ok,
        exists|d: Date|
            d.wf() && match r {
                Ok(s) => default_archive_name(doc@, compact_date(d)) == Ok::<
                    Seq<char>,
                    FieldFault,
                >(s@),
                Err(e) => default_archive_name(doc@, compact_date(d)) == Err::<
                    Seq<char>,
                    FieldFault,
                >(e@),
            },
{
    let d = Date::now();
    default_archive_name_on(doc, &d)
}

/// The archive password configured in the `[zip]` table, if not empty.
pub fn configured_password(doc: &ConfigDocument) -> (r: Result<Option<String>, ConfigError>)
    ensures
        match r {
            Ok(Some(p)) => archive_password(doc@) == Ok::<Option<Seq<char>>, FieldFault>(Some(p@)),
            Ok(None) => archive_password(doc@) == Ok::<Option<Seq<char>>, FieldFault>(None),
            Err(e) => archive_password(doc@) == Err::<Option<Seq<char>>, FieldFault>(e@),
        },
{
    let zip = match doc.table("zip") {
        Ok(t) => t,
        Err(e) => {
            return Err(e);
        },
    };
    match zip.optional_text("password") {
        Ok(Some(p)) => {
            if p.as_str().unicode_len() > 0 {
                Ok(Some(p))
            } else {
                Ok(None)
            }
        },
        Ok(None) => Ok(None),
        Err(e) => Err(e),
    }
}

/// The `zip` command: the directory to archive and, optionally, names to
/// leave out.
#[derive(Debug, Clone, PartialEq, Eq)]
pub struct Zip {
    pub ignore: Option<Vec<String>>,
    pub dir_path: String,
}

impl MyCommand for Zip {
    open spec fn table_spec(&self) -> Seq<char> {
        "zip"@
    }

    open spec fn overrides_spec(&self) -> Map<Seq<char>, ValueModel> {
        let m = match self.ignore {
            Some(v) => Map::empty().insert("ignore"@, ValueModel::TextList(names(v@))),
            None => Map::empty(),
        };
        m.insert("dir_path"@, ValueModel::Text(self.dir_path@))
    }

    fn table_name(&self) -> (r: &'static str) {
        "zip"
    }

    fn overrides(&self) -> (r: FieldMap) {
        let mut m = FieldMap::new();
        match &self.ignore {
            Some(v) => {
                m.insert("ignore".to_string(), ConfigValue::TextList(crate::config::copy_texts(v)));
            },
            None => {},
        }
        m.insert("dir_path".to_string(), ConfigValue::Text(self.dir_path.clone()));
        m
    }
}

impl Zip {
    /// The job described by merged `fields` and the document, on `date`.
    pub fn archive_job(fields: &FieldMap, doc: &ConfigDocument, date: &Date) -> (r: Result<
        ArchiveJob,
        ConfigError,
    >)
        ensures
            match r {
                Ok(j) => zip_job(fields@, doc@, compact_date(*date)) == Ok::<JobModel, FieldFault>(
                    j@,
                ),
                Err(e) => zip_job(fields@, doc@, compact_date(*date)) == Err::<
                    JobModel,
                    FieldFault,
                >(e@),
            },
    {
        let root = match fields.text("dir_path") {
            Ok(s) => s,
            Err(e) => {
                return Err(e);
            },
        };
        let ignore = match fields.text_list("ignore") {
            Ok(v) => v,
            Err(e) => {
                return Err(e);
            },
        };
        let file_name = match default_archive_name_on(doc, date) {
            Ok(s) => s,
            Err(e) => {
                return Err(e);
            },
        };
        let password = match configured_password(doc) {
            Ok(p) => p,
            Err(e) => {
                return Err(e);
            },
        };
        Ok(ArchiveJob { root, ignore, file_name, password })
    }

    /// The job of this invocation, named for today.
    pub fn zip(&self, doc: &ConfigDocument) -> (r: Result<ArchiveJob, ConfigError>)
        ensures
            exists|d: Date|
                d.wf() && match merged_fields(doc@, "zip"@, self.overrides_spec()) {
                    Err(f) => r matches Err(e) && e@ == f,
                    Ok(fields) => match r {
                        Ok(j) => zip_job(fields, doc@, compact_date(d)) == Ok::<
                            JobModel,
                            FieldFault,
                        >(j@),
                        Err(e) => zip_job(fields, doc@, compact_date(d)) == Err::<
                            JobModel,
                            FieldFault,
                        >(e@),
                    },
                },
    {
        let d = Date::now();
        let fields = match self.parse_field(doc) {
            Ok(f) => f,
            Err(e) => {
                return Err(e);
            },
        };
        Zip::archive_job(&fields, doc, &d)
    }
}

} // verus!
