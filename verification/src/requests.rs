//! What the options ask for around a solve: the options file, the output file,
//! the starting point, the derivative test, the documentation.
use crate::application::IpoptApplication;
use crate::decimal::D0;
use crate::decimal::D1EM4;
use crate::decimal::D1EM8;
use crate::number::Number;
use crate::options::integer_of;
use crate::options::integer_or;
use crate::options::numeric_of;
use crate::options::numeric_or;
use crate::options::setting;
use crate::options::switch_of;
use crate::options::switch_or;
use crate::options::text_of;
use crate::options::text_set;
use crate::options::Held;
use crate::options::OptionsView;
use crate::options::Setting;
use crate::second_opinion::with_text;
use crate::status::journal_level;
use crate::status::journal_level_from_int;
use crate::status::JournalLevel;
use crate::text::same;
use vstd::prelude::*;
use vstd::string::StringExecFns;

verus! {

/// The name of the options file that is looked for first.
pub fn own_option_file_name() -> (r: &'static str)
    ensures
        r@ == "pounce.opt"@,
{
    "pounce.opt"
}

/// The name of the options file that is looked for next.
pub fn shared_option_file_name() -> (r: &'static str)
    ensures
        r@ == "ipopt.opt"@,
{
    "ipopt.opt"
}

/// Which options file configures the run.
#[derive(Debug)]
pub struct OptionFileLoad {
    /// The file; none where nobody named one and no default was there.
    pub path: Option<String>,
    /// The caller named it.
    pub explicit: bool,
    /// Notes on settings that take no effect.
    pub warnings: Vec<String>,
}

impl Default for OptionFileLoad {
    fn default() -> (r: OptionFileLoad)
        ensures
            r.path is None,
            !r.explicit,
            r.warnings@.len() == 0,
    {
        OptionFileLoad { path: None, explicit: false, warnings: Vec::new() }
    }
}

/// The message on a named options file that is not there.
pub open spec fn missing_file_message(path: Seq<char>) -> Seq<char> {
    "options file \""@ + path
        + "\" does not exist. It was named by --options-file / option_file_name, so the run would otherwise proceed at stock defaults with none of its settings applied."@
}

/// The note on two default files in one place.
pub open spec fn both_present_note() -> Seq<char> {
    "`pounce.opt` and `ipopt.opt` are both present; reading `pounce.opt` only (pounce's own name wins). Pass `option_file_name=ipopt.opt` to read that one instead."@
}

/// The note on a file that names another.
pub open spec fn chained_note(path: Seq<char>, named: Seq<char>) -> Seq<char> {
    "`"@ + path + "` sets option_file_name to `"@ + named
        + "`, which has no effect: the options file is chosen before it is read. Pass `option_file_name="@
        + named + "` on the command line to read that file."@
}

/// The notes hold these texts.
pub open spec fn notes_are(notes: Seq<String>, texts: Seq<Seq<char>>) -> bool {
    notes.len() == texts.len() && forall|i: int|
        0 <= i < notes.len() ==> (#[trigger] notes[i])@ == texts[i]
}

/// The path is this text.
pub open spec fn path_is(path: Option<String>, text: Seq<char>) -> bool {
    path matches Some(p) && p@ == text
}

/// The choice of the options file. A named file must be there; of the default
/// ones the first that is there is read, and a note says so where both are.
pub open spec fn chooses_file(
    named: Option<Seq<char>>,
    named_is_there: bool,
    own_is_there: bool,
    shared_is_there: bool,
    r: Result<OptionFileLoad, String>,
) -> bool {
    match named {
        Some(path) => if named_is_there {
            r matches Ok(l) && path_is(l.path, path) && l.explicit && l.warnings@.len() == 0
        } else {
            r matches Err(msg) && msg@ == missing_file_message(path)
        },
        None => r matches Ok(l) && !l.explicit && if own_is_there {
            path_is(l.path, "pounce.opt"@) && notes_are(
                l.warnings@,
                if shared_is_there {
                    seq![both_present_note()]
                } else {
                    seq![]
                },
            )
        } else if shared_is_there {
            path_is(l.path, "ipopt.opt"@) && l.warnings@.len() == 0
        } else {
            l.path is None && l.warnings@.len() == 0
        },
    }
}

/// A journal to attach.
#[derive(Debug)]
pub struct JournalRequest {
    pub name: String,
    pub file: String,
    pub level: JournalLevel,
    pub append: bool,
}

/// The journal of an output file.
pub open spec fn journal_for(j: JournalRequest, file: Seq<char>, level: int, append: bool) -> bool {
    &&& j.name@ == "OutputFile:"@ + file
    &&& j.file@ == file
    &&& j.level == journal_level(level)
    &&& j.append == append
}

/// What is done to the starting point.
#[derive(Clone, Copy, Debug, PartialEq, Eq, Structural)]
pub enum StartConditioner {
    /// A random displacement of the given scale.
    Jitter { seed: u64, scale: Number },
    /// A warm-up by gradient steps; the warm-up keeps its own value of what is
    /// unset.
    Adam { iters: Option<usize>, lr: Option<Number>, rho: Option<Number> },
}

/// What is done to the starting point: a displacement where one is asked for,
/// else a warm-up where one is.
pub open spec fn conditioner_of(o: OptionsView) -> Option<StartConditioner> {
    let scale = match numeric_of(o, "start_point_perturbation"@) {
        Some(v) => v,
        None => Number { bits: D0 },
    };
    if (Number { bits: D0 }).lt_spec(scale) {
        Some(
            StartConditioner::Jitter {
                seed: match integer_of(o, "start_point_perturbation_seed"@) {
                    Some(v) => if v > 0 {
                        v as u64
                    } else {
                        0
                    },
                    None => 0,
                },
                scale,
            },
        )
    } else if text_of(o, "start_point_conditioner"@) == Some("adam"@) {
        Some(
            StartConditioner::Adam {
                iters: match integer_of(o, "adam_warmup_iters"@) {
                    Some(v) => Some(
                        if v > 0 {
                            v as usize
                        } else {
                            0
                        },
                    ),
                    None => None,
                },
                lr: numeric_of(o, "adam_warmup_learning_rate"@),
                rho: numeric_of(o, "adam_warmup_penalty"@),
            },
        )
    } else {
        None
    }
}

/// What the derivative test is to do.
#[derive(Debug)]
pub struct DerivativeTestOptions {
    /// The name of the test; none where the caller asked for none.
    pub mode: Option<String>,
    pub perturbation: Number,
    pub tol: Number,
    pub first_index: i32,
    pub print_all: bool,
}

/// The derivative test that the options ask for.
pub open spec fn derivative_test_of(o: OptionsView, d: DerivativeTestOptions) -> bool {
    &&& match text_set(o, "derivative_test"@) {
        Some(t) => d.mode matches Some(m) && m@ == t,
        None => d.mode is None,
    }
    &&& d.perturbation == numeric_or(o, "derivative_test_perturbation"@, Number { bits: D1EM8 })
    &&& d.tol == numeric_or(o, "derivative_test_tol"@, Number { bits: D1EM4 })
    &&& d.first_index == integer_or(o, "derivative_test_first_index"@, -2i32)
    &&& d.print_all == switch_or(o, "derivative_test_print_all"@, false)
}

/// The documentation that is to be printed.
#[derive(Debug)]
pub struct DocumentationRequest {
    /// The format, by the name that the option stands at.
    pub mode: Option<String>,
    pub advanced: bool,
}

fn report_missing_file(path: &str) -> (r: String)
    ensures
        r@ == missing_file_message(path@),
{
    let mut msg = "options file \"".to_owned();
    msg.append(path);
    msg.append(
        "\" does not exist. It was named by --options-file / option_file_name, so the run would otherwise proceed at stock defaults with none of its settings applied.",
    );
    msg
}

fn report_chained(path: &str, named: &str) -> (r: String)
    ensures
        r@ == chained_note(path@, named@),
{
    let mut msg = "`".to_owned();
    msg.append(path);
    msg.append("` sets option_file_name to `");
    msg.append(named);
    msg.append(
        "`, which has no effect: the options file is chosen before it is read. Pass `option_file_name=",
    );
    msg.append(named);
    msg.append("` on the command line to read that file.");
    msg
}

fn journal_named(fname: &str, level: i32, append: bool) -> (r: JournalRequest)
    ensures
        journal_for(r, fname@, level as int, append),
{
    let mut name = "OutputFile:".to_owned();
    name.append(fname);
    JournalRequest { name, file: fname.to_owned(), level: journal_level_from_int(level), append }
}

/// The options after an output file was asked for: its name where the registry
/// takes it, and then its level where the registry takes that.
pub open spec fn output_file_options(
    o: OptionsView,
    fname: Seq<char>,
    print_level: i32,
    name_accepted: bool,
    level_accepted: bool,
) -> OptionsView {
    let named = with_text(o, "output_file"@, fname);
    if !name_accepted {
        o
    } else if !level_accepted {
        named
    } else {
        named.insert(
            "file_print_level"@,
            Setting {
                set: Some(Held::Integer(print_level)),
                ..setting(named, "file_print_level"@)
            },
        )
    }
}

impl IpoptApplication {
    /// Chooses the options file of the run, given which files are there. From
    /// then on the option that names one is honored.
    pub fn choose_option_file(
        &mut self,
        named: Option<&str>,
        named_is_there: bool,
        own_is_there: bool,
        shared_is_there: bool,
    ) -> (r: Result<OptionFileLoad, String>)
        ensures
            *final(self) == (IpoptApplication { option_file_resolved: true, ..*old(self) }),
            chooses_file(
                match named {
                    Some(p) => Some(p@),
                    None => None,
                },
                named_is_there,
                own_is_there,
                shared_is_there,
                r,
            ),
    {
        self.option_file_resolved = true;
        let mut load = OptionFileLoad::default();
        match named {
            Some(p) => {
                if !named_is_there {
                    return Err(report_missing_file(p));
                }
                load.explicit = true;
                load.path = Some(p.to_owned());
            },
            None => {
                if own_is_there {
                    if shared_is_there {
                        load.warnings.push(
                            "`pounce.opt` and `ipopt.opt` are both present; reading `pounce.opt` only (pounce's own name wins). Pass `option_file_name=ipopt.opt` to read that one instead.".to_owned(),
                        );
                    }
                    load.path = Some(own_option_file_name().to_owned());
                } else if shared_is_there {
                    load.path = Some(shared_option_file_name().to_owned());
                }
            },
        }
        Ok(load)
    }

    /// Notes a setting inside the options file that names another one, once the
    /// file has been read.
    pub fn note_chained_option_file(&self, load: &mut OptionFileLoad, names_this_file: bool)
        ensures
            final(load).path == old(load).path,
            final(load).explicit == old(load).explicit,
            match (old(load).path, text_set(self.options@, "option_file_name"@)) {
                (Some(path), Some(named)) => if named.len() > 0 && !names_this_file {
                    &&& final(load).warnings@.len() == old(load).warnings@.len() + 1
                    &&& final(load).warnings@.drop_last() == old(load).warnings@
                    &&& final(load).warnings@.last()@ == chained_note(path@, named)
                } else {
                    final(load).warnings@ == old(load).warnings@
                },
                _ => final(load).warnings@ == old(load).warnings@,
            },
    {
        let note = match (&load.path, self.options.set_text("option_file_name")) {
            (Some(path), Some(named)) => {
                if !named.as_str().is_empty() && !names_this_file {
                    Some(report_chained(path.as_str(), named.as_str()))
                } else {
                    None
                }
            },
            _ => None,
        };
        let ghost before = load.warnings@;
        if let Some(n) = note {
            load.warnings.push(n);
            assert(load.warnings@.drop_last() =~= before);
        }
    }

    /// The journal that the options ask for, if an output file is named.
    pub fn output_file_journal(&self) -> (r: Option<JournalRequest>)
        ensures
            match text_set(self.options@, "output_file"@) {
                Some(t) => if t.len() > 0 {
                    r matches Some(j) && journal_for(
                        j,
                        t,
                        integer_or(self.options@, "file_print_level"@, 5) as int,
                        switch_or(self.options@, "file_append"@, false),
                    )
                } else {
                    r is None
                },
                None => r is None,
            },
    {
        match self.options.set_text("output_file") {
            Some(t) => {
                if t.as_str().is_empty() {
                    return None;
                }
                let level: i32 = self.options.integer("file_print_level", 5);
                let append = self.options.switch("file_append", false);
                Some(journal_named(t.as_str(), level, append))
            },
            None => None,
        }
    }

    /// Names an output file and its level; the journal to attach comes back.
    /// `name_accepted` and `level_accepted` say whether the registry of the
    /// options takes the name and the level. What it refuses is not set, a level
    /// is not set after a name that was refused, and there is no journal then.
    pub fn open_output_file(
        &mut self,
        fname: &str,
        print_level: i32,
        name_accepted: bool,
        level_accepted: bool,
    ) -> (r: Option<JournalRequest>)
        ensures
            r is Some <==> name_accepted && level_accepted,
            r matches Some(j) ==> journal_for(j, fname@, print_level as int, false),
            *final(self) == (IpoptApplication { options: final(self).options, ..*old(self) }),
            final(self).options@ == output_file_options(
                old(self).options@,
                fname@,
                print_level,
                name_accepted,
                level_accepted,
            ),
    {
        if !name_accepted {
            return None;
        }
        self.options.set_string_value("output_file", fname);
        if !level_accepted {
            return None;
        }
        self.options.set_integer_value("file_print_level", print_level);
        Some(journal_named(fname, print_level, false))
    }

    /// What is done to the starting point, if anything.
    pub fn start_conditioner(&self) -> (r: Option<StartConditioner>)
        ensures
            r == conditioner_of(self.options@),
    {
        let zero = Number { bits: D0 };
        let scale = match self.options.get_numeric_value("start_point_perturbation") {
            Some((v, _set)) => v,
            None => zero,
        };
        if zero.less(scale) {
            let seed: u64 = match self.options.get_integer_value("start_point_perturbation_seed") {
                Some((v, _set)) => {
                    if v > 0 {
                        v as u64
                    } else {
                        0
                    }
                },
                None => 0,
            };
            return Some(StartConditioner::Jitter { seed, scale });
        }
        let adam = match self.options.get_string_value("start_point_conditioner") {
            Some((t, _set)) => same(t.as_str(), "adam"),
            None => false,
        };
        if !adam {
            return None;
        }
        let iters = match self.options.get_integer_value("adam_warmup_iters") {
            Some((v, _set)) => Some(
                if v > 0 {
                    v as usize
                } else {
                    0
                },
            ),
            None => None,
        };
        let lr = match self.options.get_numeric_value("adam_warmup_learning_rate") {
            Some((v, _set)) => Some(v),
            None => None,
        };
        let rho = match self.options.get_numeric_value("adam_warmup_penalty") {
            Some((v, _set)) => Some(v),
            None => None,
        };
        Some(StartConditioner::Adam { iters, lr, rho })
    }

    /// The derivative test that the options ask for.
    pub fn derivative_test_options(&self) -> (r: DerivativeTestOptions)
        ensures
            derivative_test_of(self.options@, r),
    {
        let o = &self.options;
        DerivativeTestOptions {
            mode: o.set_text("derivative_test"),
            perturbation: o.numeric("derivative_test_perturbation", Number { bits: D1EM8 }),
            tol: o.numeric("derivative_test_tol", Number { bits: D1EM4 }),
            first_index: o.integer("derivative_test_first_index", -2),
            print_all: o.switch("derivative_test_print_all", false),
        }
    }

    /// The documentation that is to be printed, if any.
    pub fn documentation_request(&self) -> (r: Option<DocumentationRequest>)
        ensures
            r is Some <==> switch_or(self.options@, "print_options_documentation"@, false),
            r matches Some(d) ==> {
                &&& match text_of(self.options@, "print_options_mode"@) {
                    Some(t) => d.mode matches Some(m) && m@ == t,
                    None => d.mode is None,
                }
                &&& d.advanced == (switch_of(self.options@, "print_advanced_options"@) == Some(
                    true,
                ))
            },
    {
        if !self.options.switch("print_options_documentation", false) {
            return None;
        }
        let mode = match self.options.get_string_value("print_options_mode") {
            Some((t, _set)) => Some(t),
            None => None,
        };
        let advanced = match self.options.get_bool_value("print_advanced_options") {
            Some((v, _set)) => v,
            None => false,
        };
        Some(DocumentationRequest { mode, advanced })
    }
}

/// A displacement wins over a warm-up, and with neither the starting point is
/// left alone.
pub proof fn law_displacement_wins(o: OptionsView, v: Number)
    ensures
        numeric_of(o, "start_point_perturbation"@) == Some(v) && (Number { bits: D0 }).lt_spec(v)
            ==> conditioner_of(o) is Some && conditioner_of(o)->0 is Jitter
            && conditioner_of(o)->0->scale == v,
        numeric_of(o, "start_point_perturbation"@) is None && text_of(
            o,
            "start_point_conditioner"@,
        ) is None ==> conditioner_of(o) is None,
{
}

} // verus!
