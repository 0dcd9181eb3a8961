//! The `mail` command: what to archive first, what to attach, where to send.

use vstd::prelude::*;

use crate::archive::{
    archive_password, configured_password, default_archive_name, default_archive_name_on,
    submission_name, submission_stem, ArchiveJob, JobModel,
};
use crate::date::{compact_date, Date};
use crate::commands::MyCommand;
use crate::config::{
    flag_lookup, integer_lookup, optional_text_lookup, table_lookup, text_list_lookup,
    text_lookup, ConfigDocument, ConfigError, ConfigValue, EntryModel, FieldFault, FieldMap,
    ValueModel,
};

verus! {

/// The archive an automatic `mail` run makes first: the current directory,
/// with the `ignore` list and password of the `[zip]` table, under the
/// default archive name.
pub open spec fn auto_archive_job(doc: Map<Seq<char>, EntryModel>, stamp: Seq<char>) -> Result<
    JobModel,
    FieldFault,
> {
    match default_archive_name(doc, stamp) {
        Err(f) => Err(f),
        Ok(file_name) => match table_lookup(doc, "zip"@) {
            Err(f) => Err(f),
            Ok(z) => match text_list_lookup(z, "ignore"@) {
                Err(f) => Err(f),
                Ok(ignore) => match archive_password(doc) {
                    Err(f) => Err(f),
                    Ok(password) => Ok(JobModel { root: "."@, ignore, file_name, password }),
                },
            },
        },
    }
}

/// The mathematical form of `SmtpSettings`.
pub struct SmtpModel {
    pub server: Seq<char>,
    pub port: u16,
    pub user: Seq<char>,
    pub password: Seq<char>,
}

/// The SMTP relay settings among the merged fields; the port is taken modulo
/// 2^16.
pub open spec fn smtp_settings(fields: Map<Seq<char>, ValueModel>) -> Result<
    SmtpModel,
    FieldFault,
> {
    match text_lookup(fields, "email"@) {
        Err(f) => Err(f),
        Ok(user) => match text_lookup(fields, "password"@) {
            Err(f) => Err(f),
            Ok(password) => match text_lookup(fields, "smtp_server"@) {
                Err(f) => Err(f),
                Ok(server) => match integer_lookup(fields, "smtp_port"@) {
                    Err(f) => Err(f),
                    Ok(port) => Ok(SmtpModel { server, port: port as u16, user, password }),
                },
            },
        },
    }
}

/// The mathematical form of a `MailPlan`.
pub struct MailModel {
    pub archive: Option<JobModel>,
    pub attachment: Seq<char>,
    pub subject: Seq<char>,
    pub from: Seq<char>,
    pub to: Seq<char>,
    pub output: Option<Seq<char>>,
    pub send: bool,
    pub smtp: SmtpModel,
}

/// The plan of a `mail` run from its merged fields and the document, on the
/// day written `stamp`. Without an `attachment` field the attachment is the
/// archive made first, or else `<class>_<user>_<stamp>.zip`.
pub open spec fn mail_plan(
    fields: Map<Seq<char>, ValueModel>,
    doc: Map<Seq<char>, EntryModel>,
    stamp: Seq<char>,
) -> Result<MailModel, FieldFault> {
    match text_lookup(fields, "email"@) {
        Err(f) => Err(f),
        Ok(from) => match text_lookup(fields, "receiver"@) {
            Err(f) => Err(f),
            Ok(to) => match flag_lookup(fields, "auto"@) {
                Err(f) => Err(f),
                Ok(auto) => match (if auto {
                    match auto_archive_job(doc, stamp) {
                        Err(f) => Err(f),
                        Ok(j) => Ok(Some(j)),
                    }
                } else {
                    Ok(None)
                }) {
                    Err(f) => Err(f),
                    Ok(archive) => match text_lookup(fields, "user_name"@) {
                        Err(f) => Err(f),
                        Ok(user) => match text_lookup(fields, "class_name"@) {
                            Err(f) => Err(f),
                            Ok(class) => match optional_text_lookup(fields, "attachment"@) {
                                Err(f) => Err(f),
                                Ok(given) => match smtp_settings(fields) {
                                    Err(f) => Err(f),
                                    Ok(smtp) => match optional_text_lookup(fields, "output"@) {
                                        Err(f) => Err(f),
                                        Ok(output) => match flag_lookup(fields, "send"@) {
                                            Err(f) => Err(f),
                                            Ok(send) => Ok(
                                                MailModel {
                                                    archive,
                                                    attachment: match given {
                                                        Some(a) => a,
                                                        None => match archive {
                                                            Some(j) => j.file_name,
                                                            None => submission_stem(
                                                                class,
                                                                user,
                                                                stamp,
                                                            ) + ".zip"@,
                                                        },
                                                    },
                                                    subject: submission_stem(class, user, stamp),
                                                    from,
                                                    to,
                                                    output,
                                                    send,
                                                    smtp,
                                                },
                                            ),
                                        },
                                    },
                                },
                            },
                        },
                    },
                },
            },
        },
    }
}

/// In automatic mode the archive is made first and, unless an attachment is
/// named, that very archive is what gets attached.
pub proof fn lemma_auto_mode_attaches_archive(
    fields: Map<Seq<char>, ValueModel>,
    doc: Map<Seq<char>, EntryModel>,
    stamp: Seq<char>,
)
    requires
        mail_plan(fields, doc, stamp) is Ok,
    ensures
        ({
            let p = mail_plan(fields, doc, stamp)->Ok_0;
            &&& (p.archive is Some <==> flag_lookup(fields, "auto"@) == Ok::<bool, FieldFault>(
                true,
            ))
            &&& p.archive is Some ==> p.archive->Some_0 == auto_archive_job(doc, stamp)->Ok_0
            &&& p.archive is Some && !fields.contains_key("attachment"@) ==> p.attachment
                == p.archive->Some_0.file_name
        }),
{
}

/// How to reach the SMTP relay.
#[derive(Debug, Clone, PartialEq, Eq)]
pub struct SmtpSettings {
    pub server: String,
    pub port: u16,
    pub user: String,
    pub password: String,
}

impl View for SmtpSettings {
    type V = SmtpModel;

    open spec fn view(&self) -> SmtpModel {
        SmtpModel {
            server: self.server@,
            port: self.port,
            user: self.user@,
            password: self.password@,
        }
    }
}

/// Everything a `mail` run does, decided before any file or network work.
#[derive(Debug, Clone, PartialEq, Eq)]
pub struct MailPlan {
    /// The archive to make before composing the message.
    pub archive: Option<ArchiveJob>,
    /// The path, relative to the current directory, of the file to attach.
    pub attachment: String,
    pub subject: String,
    pub from: String,
    pub to: String,
    /// Where to write the raw message, if anywhere.
    pub output: Option<String>,
    /// Whether to hand the message to the relay.
    pub send: bool,
    pub smtp: SmtpSettings,
}

pub open spec fn option_view(o: Option<String>) -> Option<Seq<char>> {
    match o {
        Some(s) => Some(s@),
        None => None,
    }
}

impl View for MailPlan {
    type V = MailModel;

    open spec fn view(&self) -> MailModel {
        MailModel {
            archive: match self.archive {
                Some(j) => Some(j@),
                None => None,
            },
            attachment: self.attachment@,
            subject: self.subject@,
            from: self.from@,
            to: self.to@,
            output: option_view(self.output),
            send: self.send,
            smtp: self.smtp@,
        }
    }
}

/// The `mail` command.
#[derive(Debug, Clone, PartialEq, Eq)]
pub struct Mail {
    /// Hand the message to the relay.
    pub send: bool,
    /// Archive the current directory first and attach the result.
    pub auto: bool,
    /// The file to attach instead of the default one.
    pub attachment: Option<String>,
    /// Also write the raw message to this file.
    pub output: Option<String>,
}

impl MyCommand for Mail {
    open spec fn table_spec(&self) -> Seq<char> {
        "mail"@
    }

    open spec fn overrides_spec(&self) -> Map<Seq<char>, ValueModel> {
        let m1 = Map::empty().insert("send"@, ValueModel::Boolean(self.send));
        let m2 = match self.attachment {
            Some(s) => m1.insert("attachment"@, ValueModel::Text(s@)),
            None => m1,
        };
        let m3 = match self.output {
            Some(s) => m2.insert("output"@, ValueModel::Text(s@)),
            None => m2,
        };
        m3.insert("auto"@, ValueModel::Boolean(self.auto))
    }

    fn table_name(&self) -> (r: &'static str) {
        "mail"
    }

    fn overrides(&self) -> (r: FieldMap) {
        let mut m = FieldMap::new();
        m.insert("send".to_string(), ConfigValue::Boolean(self.send));
        match &self.attachment {
            Some(s) => m.insert("attachment".to_string(), ConfigValue::Text(s.clone())),
            None => {},
        }
        match &self.output {
            Some(s) => m.insert("output".to_string(), ConfigValue::Text(s.clone())),
            None => {},
        }
        m.insert("auto".to_string(), ConfigValue::Boolean(self.auto));
        m
    }
}

impl Mail {
    /// The archive an automatic run makes first, on `date`.
    pub fn auto_archive(doc: &ConfigDocument, date: &Date) -> (r: Result<
        ArchiveJob,
        ConfigError,
    >)
        ensures
            match r {
                Ok(j) => auto_archive_job(doc@, compact_date(*date)) == Ok::<JobModel, FieldFault>(
                    j@,
                ),
                Err(e) => auto_archive_job(doc@, compact_date(*date)) == Err::<
                    JobModel,
                    FieldFault,
                >(e@),
            },
    {
        let file_name = match default_archive_name_on(doc, date) {
            Ok(s) => s,
            Err(e) => {
                return Err(e);
            },
        };
        let zip = match doc.table("zip") {
            Ok(t) => t,
            Err(e) => {
                return Err(e);
            },
        };
        let ignore = match zip.text_list("ignore") {
            Ok(v) => v,
            Err(e) => {
                return Err(e);
            },
        };
        let password = match configured_password(doc) {
            Ok(p) => p,
            Err(e) => {
                return Err(e);
            },
        };
        Ok(ArchiveJob { root: ".".to_string(), ignore, file_name, password })
    }

    /// The relay settings among the merged fields.
    pub fn smtp_settings(fields: &FieldMap) -> (r: Result<SmtpSettings, ConfigError>)
        ensures
            match r {
                Ok(s) => smtp_settings(fields@) == Ok::<SmtpModel, FieldFault>(s@),
                Err(e) => smtp_settings(fields@) == Err::<SmtpModel, FieldFault>(e@),
            },
    {
        let user = match fields.text("email") {
            Ok(s) => s,
            Err(e) => {
                return Err(e);
            },
        };
        let password = match fields.text("password") {
            Ok(s) => s,
            Err(e) => {
                return Err(e);
            },
        };
        let server = match fields.text("smtp_server") {
            Ok(s) => s,
            Err(e) => {
                return Err(e);
            },
        };
        let port = match fields.integer("smtp_port") {
            Ok(n) => n,
            Err(e) => {
                return Err(e);
            },
        };
        Ok(SmtpSettings { server, port: port as u16, user, password })
    }

    /// The plan of a run with merged `fields`, on `date`.
    pub fn build_plan(fields: &FieldMap, doc: &ConfigDocument, date: &Date) -> (r: Result<
        MailPlan,
        ConfigError,
    >)
        ensures
            match r {
                Ok(p) => mail_plan(fields@, doc@, compact_date(*date)) == Ok::<
                    MailModel,
                    FieldFault,
                >(p@),
                Err(e) => mail_plan(fields@, doc@, compact_date(*date)) == Err::<
                    MailModel,
                    FieldFault,
                >(e@),
            },
    {
        let from = match fields.text("email") {
            Ok(s) => s,
            Err(e) => {
                return Err(e);
            },
        };
        let to = match fields.text("receiver") {
            Ok(s) => s,
            Err(e) => {
                return Err(e);
            },
        };
        let auto = match fields.flag("auto") {
            Ok(b) => b,
            Err(e) => {
                return Err(e);
            },
        };
        let archive = if auto {
            match Mail::auto_archive(doc, date) {
                Ok(j) => Some(j),
                Err(e) => {
                    return Err(e);
                },
            }
        } else {
            None
        };
        let user = match fields.text("user_name") {
            Ok(s) => s,
            Err(e) => {
                return Err(e);
            },
        };
        let class = match fields.text("class_name") {
            Ok(s) => s,
            Err(e) => {
                return Err(e);
            },
        };
        let given = match fields.optional_text("attachment") {
            Ok(a) => a,
            Err(e) => {
                return Err(e);
            },
        };
        let smtp = match Mail::smtp_settings(fields) {
            Ok(s) => s,
            Err(e) => {
                return Err(e);
            },
        };
        let output = match fields.optional_text("output") {
            Ok(o) => o,
            Err(e) => {
                return Err(e);
            },
        };
        let send = match fields.flag("send") {
            Ok(b) => b,
            Err(e) => {
                return Err(e);
            },
        };
        let stamp = date.compact_text();
        let subject = submission_name(class.as_str(), user.as_str(), stamp.as_str());
        let attachment = match given {
            Some(a) => a,
            None => match &archive {
                Some(j) => j.file_name.clone(),
                None => {
                    let mut a = subject.clone();
                    a.append(".zip");
                    a
                },
            },
        };
        Ok(MailPlan { archive, attachment, subject, from, to, output, send, smtp })
    }
}

} // verus!
