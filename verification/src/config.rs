//! Configuration vocabulary: template kinds, template variables, template
//! items, and the metadata that groups named templates.

use vstd::prelude::*;

verus! {

/// The category of a template.
#[derive(Debug, Clone, Copy, PartialEq, Eq, Structural)]
pub enum TemplateKind {
    Project,
    Monorepo,
    Package,
}

/// One variable placeholder used in template replacements, together with
/// its prompt, its default value, and the paths it applies to.
#[derive(Debug, PartialEq, Eq)]
pub struct TemplateVar {
    pub placeholder: String,
    pub prompt: Option<String>,
    pub default: Option<String>,
    pub includes_paths: Option<Vec<String>>,
}

/// The specification-level rendering of a template variable.
pub struct TemplateVarView {
    pub placeholder: Seq<char>,
    pub prompt: Option<Seq<char>>,
    pub default: Option<Seq<char>>,
    pub includes_paths: Option<Seq<Seq<char>>>,
}

/// The view of an optional string.
pub open spec fn opt_str_view(v: Option<String>) -> Option<Seq<char>> {
    match v {
        Some(s) => Some(s@),
        None => None,
    }
}

/// The view of an optional string list.
pub open spec fn opt_strs_view(v: Option<Vec<String>>) -> Option<Seq<Seq<char>>> {
    match v {
        Some(s) => Some(s@.map_values(|x: String| x@)),
        None => None,
    }
}

impl View for TemplateVar {
    type V = TemplateVarView;

    open spec fn view(&self) -> TemplateVarView {
        TemplateVarView {
            placeholder: self.placeholder@,
            prompt: opt_str_view(self.prompt),
            default: opt_str_view(self.default),
            includes_paths: opt_strs_view(self.includes_paths),
        }
    }
}

/// A list of template variables.
pub type TemplateVars = Vec<TemplateVar>;

/// One template: its kind, where it comes from (a local path or a remote
/// repository), its file filters, its variables, and an optional script to
/// run afterwards.
#[derive(Debug, PartialEq, Eq)]
pub struct TemplateItem {
    pub kind: TemplateKind,
    pub template: Option<String>,
    pub repo: Option<String>,
    pub includes: Option<Vec<String>>,
    pub excludes: Option<Vec<String>>,
    pub template_vars: Option<TemplateVars>,
    pub completed_script: Option<Vec<String>>,
}

/// The specification-level rendering of a template item.
pub struct TemplateItemView {
    pub kind: TemplateKind,
    pub template: Option<Seq<char>>,
    pub repo: Option<Seq<char>>,
    pub includes: Option<Seq<Seq<char>>>,
    pub excludes: Option<Seq<Seq<char>>>,
    pub template_vars: Option<Seq<TemplateVarView>>,
    pub completed_script: Option<Seq<Seq<char>>>,
}

/// The view of an optional template-variable list.
pub open spec fn opt_vars_view(v: Option<Vec<TemplateVar>>) -> Option<Seq<TemplateVarView>> {
    match v {
        Some(s) => Some(s@.map_values(|x: TemplateVar| x@)),
        None => None,
    }
}

impl View for TemplateItem {
    type V = TemplateItemView;

    open spec fn view(&self) -> TemplateItemView {
        TemplateItemView {
            kind: self.kind,
            template: opt_str_view(self.template),
            repo: opt_str_view(self.repo),
            includes: opt_strs_view(self.includes),
            excludes: opt_strs_view(self.excludes),
            template_vars: opt_vars_view(self.template_vars),
            completed_script: opt_strs_view(self.completed_script),
        }
    }
}

/// Named templates, in configuration order.
pub type Templates = Vec<(String, TemplateItem)>;

/// The views of named templates.
pub open spec fn templates_view(ts: Seq<(String, TemplateItem)>) -> Seq<
    (Seq<char>, TemplateItemView),
> {
    ts.map_values(|p: (String, TemplateItem)| (p.0@, p.1@))
}

/// An exact copy of a string list.
fn clone_string_vec(v: &Vec<String>) -> (r: Vec<String>)
    ensures
        r@ == v@,
{
    let mut out: Vec<String> = Vec::new();
    let mut i: usize = 0;
    while i < v.len()
        invariant
            i <= v@.len(),
            out@ == v@.take(i as int),
        decreases v@.len() - i,
    {
        out.push(v[i].clone());
        proof {
            assert(out@ =~= v@.take(i as int + 1));
        }
        i = i + 1;
    }
    proof {
        assert(v@.take(v@.len() as int) =~= v@);
    }
    out
}

/// An exact copy of an optional string.
fn clone_opt_string(v: &Option<String>) -> (r: Option<String>)
    ensures
        opt_str_view(r) == opt_str_view(*v),
        r is Some <==> v is Some,
{
    match v {
        Some(s) => Some(s.clone()),
        None => None,
    }
}

/// A copy of an optional string list with the same view.
fn clone_opt_string_vec(v: &Option<Vec<String>>) -> (r: Option<Vec<String>>)
    ensures
        opt_strs_view(r) == opt_strs_view(*v),
{
    match v {
        Some(s) => Some(clone_string_vec(s)),
        None => None,
    }
}

impl TemplateVar {
    /// A copy of the variable with the same view.
    pub fn duplicate(&self) -> (r: Self)
        ensures
            r@ == self@,
    {
        TemplateVar {
            placeholder: self.placeholder.clone(),
            prompt: clone_opt_string(&self.prompt),
            default: clone_opt_string(&self.default),
            includes_paths: clone_opt_string_vec(&self.includes_paths),
        }
    }
}

impl TemplateItem {
    /// A copy of the template item with the same view.
    pub fn duplicate(&self) -> (r: Self)
        ensures
            r@ == self@,
    {
        let template_vars: Option<TemplateVars> = match &self.template_vars {
            Some(vs) => {
                let mut out: Vec<TemplateVar> = Vec::new();
                let mut i: usize = 0;
                while i < vs.len()
                    invariant
                        i <= vs@.len(),
                        out@.map_values(|x: TemplateVar| x@) == vs@.take(i as int).map_values(
                            |x: TemplateVar| x@,
                        ),
                    decreases vs@.len() - i,
                {
                    let d = vs[i].duplicate();
                    let ghost dd = d;
                    let ghost prev = out@;
                    out.push(d);
                    i = i + 1;
                    proof {
                        let f = |x: TemplateVar| x@;
                        assert(out@ == prev.push(dd));
                        assert(out@.map_values(f) =~= prev.map_values(f).push(dd@));
                        assert(vs@.take(i as int) =~= vs@.take(i as int - 1).push(
                            vs@[i as int - 1],
                        ));
                        assert(vs@.take(i as int).map_values(f) =~= vs@.take(
                            i as int - 1,
                        ).map_values(f).push(vs@[i as int - 1]@));
                        assert(out@.map_values(f) == vs@.take(i as int).map_values(f));
                    }
                }
                proof {
                    assert(vs@.take(vs@.len() as int) =~= vs@);
                }
                Some(out)
            },
            None => None,
        };
        proof {
            assert(opt_vars_view(template_vars) == opt_vars_view(self.template_vars));
        }
        TemplateItem {
            kind: self.kind,
            template: clone_opt_string(&self.template),
            repo: clone_opt_string(&self.repo),
            includes: clone_opt_string_vec(&self.includes),
            excludes: clone_opt_string_vec(&self.excludes),
            template_vars,
            completed_script: clone_opt_string_vec(&self.completed_script),
        }
    }
}

/// The templates a configuration file declares.
#[derive(Debug, PartialEq, Eq)]
pub struct ConfigMetadata {
    pub templates: Templates,
}

/// The template views whose kind matches the asked-for kind; no kind keeps
/// every template.  Order is preserved.
pub open spec fn spec_templates_of_kind(
    ts: Seq<(Seq<char>, TemplateItemView)>,
    kind: Option<TemplateKind>,
) -> Seq<(Seq<char>, TemplateItemView)>
    decreases ts.len(),
{
    match kind {
        None => ts,
        Some(k) => {
            if ts.len() == 0 {
                Seq::empty()
            } else {
                spec_templates_of_kind(ts.drop_last(), kind) + (if ts.last().1.kind == k {
                    seq![ts.last()]
                } else {
                    Seq::empty()
                })
            }
        },
    }
}

impl ConfigMetadata {
    /// The templates of the asked-for kind, in configuration order; with no
    /// kind given, all of them.
    pub fn get_templates(&self, kind: Option<TemplateKind>) -> (r: Templates)
        ensures
            templates_view(r@) == spec_templates_of_kind(templates_view(self.templates@), kind),
    {
        let mut out: Templates = Vec::new();
        let mut i: usize = 0;
        while i < self.templates.len()
            invariant
                i <= self.templates@.len(),
                templates_view(out@) == spec_templates_of_kind(
                    templates_view(self.templates@.take(i as int)),
                    kind,
                ),
            decreases self.templates@.len() - i,
        {
            proof {
                assert(templates_view(self.templates@.take(i as int + 1)).drop_last()
                    =~= templates_view(self.templates@.take(i as int)));
                assert(templates_view(self.templates@.take(i as int + 1)).last() == (
                self.templates@[i as int].0@,
                self.templates@[i as int].1@,
                ));
            }
            let keep = match &kind {
                None => true,
                Some(k) => self.templates[i].1.kind == *k,
            };
            let ghost prev = out@;
            if keep {
                let name = self.templates[i].0.clone();
                let item = self.templates[i].1.duplicate();
                let ghost pair = (name, item);
                out.push((name, item));
                proof {
                    let f = |p: (String, TemplateItem)| (p.0@, p.1@);
                    assert(out@ == prev.push(pair));
                    assert(templates_view(out@) =~= templates_view(prev).push((pair.0@, pair.1@)));
                }
            }
            proof {
                let f = |p: (String, TemplateItem)| (p.0@, p.1@);
                assert(templates_view(self.templates@.take(i as int + 1)) =~= templates_view(
                    self.templates@.take(i as int),
                ).push((self.templates@[i as int].0@, self.templates@[i as int].1@)));
                assert(templates_view(out@) =~= spec_templates_of_kind(
                    templates_view(self.templates@.take(i as int + 1)),
                    kind,
                ));
            }
            i = i + 1;
        }
        proof {
            assert(self.templates@.take(self.templates@.len() as int) =~= self.templates@);
        }
        out
    }
}

/// The configuration as loaded: where it came from, when a path is known,
/// and the metadata it holds.
#[derive(Debug)]
pub struct Config {
    pub current_config_path: Option<String>,
    pub metadata: ConfigMetadata,
}

} // verus!
