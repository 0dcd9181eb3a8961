//! The three layers of fields a command reads: the `[global]` table, the
//! command's own table, and what was given on the command line.

use vstd::prelude::*;

use crate::config::{table_lookup, ConfigDocument, ConfigError, EntryModel, FieldFault, FieldMap, ValueModel};

verus! {

/// The fields a command sees: global defaults, overlaid by the command's
/// table, overlaid by the explicit overrides.
pub open spec fn merged_fields(
    doc: Map<Seq<char>, EntryModel>,
    table: Seq<char>,
    overrides: Map<Seq<char>, ValueModel>,
) -> Result<Map<Seq<char>, ValueModel>, FieldFault> {
    match table_lookup(doc, "global"@) {
        Err(f) => Err(f),
        Ok(g) => match table_lookup(doc, table) {
            Err(f) => Err(f),
            Ok(c) => Ok(g.union_prefer_right(c).union_prefer_right(overrides)),
        },
    }
}

/// The `[global]` table of the document, empty when absent.
pub fn get_global_filed_map(doc: &ConfigDocument) -> (r: Result<FieldMap, ConfigError>)
    ensures
        match r {
            Ok(t) => table_lookup(doc@, "global"@) == Ok::<
                Map<Seq<char>, ValueModel>,
                FieldFault,
            >(t@),
            Err(e) => table_lookup(doc@, "global"@) == Err::<
                Map<Seq<char>, ValueModel>,
                FieldFault,
            >(e@),
        },
{
    doc.table("global")
}

/// Lays the three layers over each other; a later layer wins on a shared key,
/// and a key of no layer stays absent.
pub fn merge_fields(global: &FieldMap, command: &FieldMap, overrides: &FieldMap) -> (r: FieldMap)
    ensures
        r@ == global@.union_prefer_right(command@).union_prefer_right(overrides@),
{
    let mut r = global.duplicate();
    r.extend(command);
    r.extend(overrides);
    r
}

/// On a key, the merged fields hold the value of the last layer that has it,
/// and keys that no layer has are absent.
pub proof fn lemma_last_layer_wins(
    global: Map<Seq<char>, ValueModel>,
    command: Map<Seq<char>, ValueModel>,
    overrides: Map<Seq<char>, ValueModel>,
    k: Seq<char>,
)
    ensures
        ({
            let m = global.union_prefer_right(command).union_prefer_right(overrides);
            &&& m.contains_key(k) <==> (global.contains_key(k) || command.contains_key(k)
                || overrides.contains_key(k))
            &&& overrides.contains_key(k) ==> m[k] == overrides[k]
            &&& !overrides.contains_key(k) && command.contains_key(k) ==> m[k] == command[k]
            &&& !overrides.contains_key(k) && !command.contains_key(k) && global.contains_key(k)
                ==> m[k] == global[k]
        }),
{
}

/// A command: the table it reads and the fields given on its command line.
pub trait MyCommand {
    /// The name of the command's table.
    spec fn table_spec(&self) -> Seq<char>;

    /// The fields given explicitly on the command line.
    spec fn overrides_spec(&self) -> Map<Seq<char>, ValueModel>;

    fn table_name(&self) -> (r: &'static str)
        ensures
            r@ == self.table_spec(),
    ;

    fn overrides(&self) -> (r: FieldMap)
        ensures
            r@ == self.overrides_spec(),
    ;

    /// The `[global]` table.
    fn get_global_filed_map(&self, doc: &ConfigDocument) -> (r: Result<FieldMap, ConfigError>)
        ensures
            match r {
                Ok(t) => table_lookup(doc@, "global"@) == Ok::<
                    Map<Seq<char>, ValueModel>,
                    FieldFault,
                >(t@),
                Err(e) => table_lookup(doc@, "global"@) == Err::<
                    Map<Seq<char>, ValueModel>,
                    FieldFault,
                >(e@),
            },
    {
        get_global_filed_map(doc)
    }

    /// The command's own table.
    fn get_filed_map(&self, doc: &ConfigDocument) -> (r: Result<FieldMap, ConfigError>)
        ensures
            match r {
                Ok(t) => table_lookup(doc@, self.table_spec()) == Ok::<
                    Map<Seq<char>, ValueModel>,
                    FieldFault,
                >(t@),
                Err(e) => table_lookup(doc@, self.table_spec()) == Err::<
                    Map<Seq<char>, ValueModel>,
                    FieldFault,
                >(e@),
            },
    {
        doc.table(self.table_name())
    }

    /// All three layers merged.
    fn parse_field(&self, doc: &ConfigDocument) -> (r: Result<FieldMap, ConfigError>)
        ensures
            match r {
                Ok(f) => merged_fields(doc@, self.table_spec(), self.overrides_spec()) == Ok::<
                    Map<Seq<char>, ValueModel>,
                    FieldFault,
                >(f@),
                Err(e) => merged_fields(doc@, self.table_spec(), self.overrides_spec()) == Err::<
                    Map<Seq<char>, ValueModel>,
                    FieldFault,
                >(e@),
            },
    {
        let global = match self.get_global_filed_map(doc) {
            Ok(t) => t,
            Err(e) => {
                return Err(e);
            },
        };
        let command = match self.get_filed_map(doc) {
            Ok(t) => t,
            Err(e) => {
                return Err(e);
            },
        };
        let overrides = self.overrides();
        Ok(merge_fields(&global, &command, &overrides))
    }
}

} // verus!
