//! Scaffolding a numbered project directory with a note file, and advancing
//! the course counter kept in the configuration.

use vstd::prelude::*;

use crate::commands::MyCommand;
use crate::config::{
    integer_lookup, table_lookup, text_lookup, ConfigDocument, ConfigError, ConfigValue,
    EntryModel, FieldFault, FieldMap, ValueModel,
};
use crate::text::{push_char, push_signed_decimal, signed_decimal};

verus! {

/// The project directory's name, `<n + 1>-<course_name>`, where `n` is the
/// `courses_number` field.
pub open spec fn project_dir_name(fields: Map<Seq<char>, ValueModel>) -> Result<
    Seq<char>,
    FieldFault,
> {
    match text_lookup(fields, "course_name"@) {
        Err(f) => Err(f),
        Ok(course) => match integer_lookup(fields, "courses_number"@) {
            Err(f) => Err(f),
            Ok(n) => if n == i64::MAX {
                Err(FieldFault::Invalid("courses_number"@))
            } else {
                Ok(signed_decimal(n + 1) + seq!['-'] + course)
            },
        },
    }
}

/// The mathematical form of a `ScaffoldPlan`.
pub struct ScaffoldModel {
    pub workspace: Seq<char>,
    pub project_name: Seq<char>,
    pub note_name: Seq<char>,
}

/// The plan of a `new` invocation from its merged fields.
pub open spec fn scaffold_plan(fields: Map<Seq<char>, ValueModel>) -> Result<
    ScaffoldModel,
    FieldFault,
> {
    match text_lookup(fields, "workspace"@) {
        Err(f) => Err(f),
        Ok(workspace) => match project_dir_name(fields) {
            Err(f) => Err(f),
            Ok(project_name) => match text_lookup(fields, "note_name"@) {
                Err(f) => Err(f),
                Ok(note_name) => Ok(ScaffoldModel { workspace, project_name, note_name }),
            },
        },
    }
}

/// The course counter stored in the `[new]` table.
pub open spec fn stored_counter(doc: Map<Seq<char>, EntryModel>) -> Result<i64, FieldFault> {
    match table_lookup(doc, "new"@) {
        Err(f) => Err(f),
        Ok(t) => integer_lookup(t, "courses_number"@),
    }
}

/// The document after the stored counter goes up by one, with the new count.
pub open spec fn counter_update(doc: Map<Seq<char>, EntryModel>) -> Result<
    (Map<Seq<char>, EntryModel>, i64),
    FieldFault,
> {
    match table_lookup(doc, "new"@) {
        Err(f) => Err(f),
        Ok(t) => match integer_lookup(t, "courses_number"@) {
            Err(f) => Err(f),
            Ok(n) => if n == i64::MAX {
                Err(FieldFault::Invalid("courses_number"@))
            } else {
                Ok(
                    (
                        doc.insert(
                            "new"@,
                            EntryModel::Table(
                                t.insert("courses_number"@, ValueModel::Integer((n + 1) as i64)),
                            ),
                        ),
                        (n + 1) as i64,
                    ),
                )
            },
        },
    }
}

/// Each run of the scaffolder advances the stored counter by exactly one, so
/// two runs advance it by two, whether or not the project already existed.
pub proof fn lemma_two_runs_advance_by_two(doc: Map<Seq<char>, EntryModel>, n: i64)
    requires
        stored_counter(doc) == Ok::<i64, FieldFault>(n),
        n < i64::MAX - 1,
    ensures
        counter_update(doc) is Ok,
        counter_update(counter_update(doc)->Ok_0.0) is Ok,
        stored_counter(counter_update(doc)->Ok_0.0) == Ok::<i64, FieldFault>((n + 1) as i64),
        stored_counter(counter_update(counter_update(doc)->Ok_0.0)->Ok_0.0) == Ok::<
            i64,
            FieldFault,
        >((n + 2) as i64),
{
    let d1 = counter_update(doc)->Ok_0.0;
    assert(table_lookup(d1, "new"@) is Ok);
    let d2 = counter_update(d1)->Ok_0.0;
    assert(table_lookup(d2, "new"@) is Ok);
}

/// Where a `new` invocation puts its project: the workspace, the project
/// directory's name inside it and the note file's name inside that.
#[derive(Debug, Clone, PartialEq, Eq)]
pub struct ScaffoldPlan {
    pub workspace: String,
    pub project_name: String,
    pub note_name: String,
}

impl View for ScaffoldPlan {
    type V = ScaffoldModel;

    open spec fn view(&self) -> ScaffoldModel {
        ScaffoldModel {
            workspace: self.workspace@,
            project_name: self.project_name@,
            note_name: self.note_name@,
        }
    }
}

/// The `new` command: each field, when given, overrides the configuration.
#[derive(Debug, Clone, PartialEq, Eq)]
pub struct New {
    pub course_name: Option<String>,
    pub courses_number: Option<u32>,
    pub note_name: Option<String>,
    pub workspace: Option<String>,
}

impl MyCommand for New {
    open spec fn table_spec(&self) -> Seq<char> {
        "new"@
    }

    open spec fn overrides_spec(&self) -> Map<Seq<char>, ValueModel> {
        let m0 = Map::empty();
        let m1 = match self.course_name {
            Some(s) => m0.insert("course_name"@, ValueModel::Text(s@)),
            None => m0,
        };
        let m2 = match self.courses_number {
            Some(n) => m1.insert("courses_number"@, ValueModel::Integer(n as i64)),
            None => m1,
        };
        let m3 = match self.note_name {
            Some(s) => m2.insert("note_name"@, ValueModel::Text(s@)),
            None => m2,
        };
        match self.workspace {
            Some(s) => m3.insert("workspace"@, ValueModel::Text(s@)),
            None => m3,
        }
    }

    fn table_name(&self) -> (r: &'static str) {
        "new"
    }

    fn overrides(&self) -> (r: FieldMap) {
        let mut m = FieldMap::new();
        match &self.course_name {
            Some(s) => m.insert("course_name".to_string(), ConfigValue::Text(s.clone())),
            None => {},
        }
        match &self.courses_number {
            Some(n) => m.insert("courses_number".to_string(), ConfigValue::Integer(*n as i64)),
            None => {},
        }
        match &self.note_name {
            Some(s) => m.insert("note_name".to_string(), ConfigValue::Text(s.clone())),
            None => {},
        }
        match &self.workspace {
            Some(s) => m.insert("workspace".to_string(), ConfigValue::Text(s.clone())),
            None => {},
        }
        m
    }
}

impl New {
    /// The project directory's name, `<courses_number + 1>-<course_name>`.
    pub fn get_project_name(fields: &FieldMap) -> (r: Result<String, ConfigError>)
        ensures
            match r {
                Ok(s) => project_dir_name(fields@) == Ok::<Seq<char>, FieldFault>(s@),
                Err(e) => project_dir_name(fields@) == Err::<Seq<char>, FieldFault>(e@),
            },
    {
        let course = match fields.text("course_name") {
            Ok(s) => s,
            Err(e) => {
                return Err(e);
            },
        };
        let n = match fields.integer("courses_number") {
            Ok(n) => n,
            Err(e) => {
                return Err(e);
            },
        };
        if n == i64::MAX {
            return Err(ConfigError::InvalidField("courses_number".to_string()));
        }
        let mut name = String::new();
        push_signed_decimal(&mut name, n + 1);
        push_char(&mut name, '-');
        name.append(course.as_str());
        assert(name@ =~= signed_decimal(n + 1) + seq!['-'] + course@);
        Ok(name)
    }

    /// Where the project of these merged fields goes.
    pub fn project_plan(fields: &FieldMap) -> (r: Result<ScaffoldPlan, ConfigError>)
        ensures
            match r {
                Ok(p) => scaffold_plan(fields@) == Ok::<ScaffoldModel, FieldFault>(p@),
                Err(e) => scaffold_plan(fields@) == Err::<ScaffoldModel, FieldFault>(e@),
            },
    {
        let workspace = match fields.text("workspace") {
            Ok(s) => s,
            Err(e) => {
                return Err(e);
            },
        };
        let project_name = match New::get_project_name(fields) {
            Ok(s) => s,
            Err(e) => {
                return Err(e);
            },
        };
        let note_name = match fields.text("note_name") {
            Ok(s) => s,
            Err(e) => {
                return Err(e);
            },
        };
        Ok(ScaffoldPlan { workspace, project_name, note_name })
    }

    /// Advances the counter stored in the `[new]` table by one and returns
    /// the new count; on failure the document is left as it was.
    pub fn update_config_courses_number(doc: &mut ConfigDocument) -> (r: Result<i64, ConfigError>)
        ensures
            match counter_update(old(doc)@) {
                Ok((d, n)) => r == Ok::<i64, ConfigError>(n) && final(doc)@ == d,
                Err(f) => r matches Err(e) && e@ == f && final(doc)@ == old(doc)@,
            },
    {
        let table = match doc.table("new") {
            Ok(t) => t,
            Err(e) => {
                return Err(e);
            },
        };
        let n = match table.integer("courses_number") {
            Ok(n) => n,
            Err(e) => {
                return Err(e);
            },
        };
        if n == i64::MAX {
            return Err(ConfigError::InvalidField("courses_number".to_string()));
        }
        let next = n + 1;
        match doc.set_field("new", "courses_number".to_string(), ConfigValue::Integer(next)) {
            Ok(()) => Ok(next),
            Err(e) => Err(e),
        }
    }
}

} // verus!
