//! The common `[Unit]` section shared by every quadlet resource kind:
//! an optional description and four insertion-ordered dependency lists.

use vstd::prelude::*;
use vstd::string::StringExecFns;

use crate::text::{join_space, join_spaces};

verus! {

#[verifier::external_type_specification]
#[verifier::external_body]
pub struct ExDependsOnOptions(docker_compose_types::DependsOnOptions);

/// The dependency targets a `DependsOnOptions` holds, in its stored order.
pub uninterp spec fn depends_targets(d: docker_compose_types::DependsOnOptions) -> Seq<Seq<char>>;

/// Relies on `docker_compose_types::DependsOnOptions`: its `Simple` variant
/// holds the list of target identifiers, and its `Conditional` variant maps
/// each target to a condition, discarded here; `IndexMap::into_keys` yields
/// the targets in the map's stored (insertion) order.
#[verifier::external_body]
fn depends_on_targets(depends_on: docker_compose_types::DependsOnOptions) -> (r: Vec<String>)
    ensures
        r.deep_view() == depends_targets(depends_on),
{
    match depends_on {
        docker_compose_types::DependsOnOptions::Simple(targets) => targets,
        docker_compose_types::DependsOnOptions::Conditional(map) => map.into_keys().collect(),
    }
}

/// The mathematical shape of a unit section: the description and the four
/// dependency sequences, as sequences of characters.
pub struct UnitView {
    pub description: Option<Seq<char>>,
    pub wants: Seq<Seq<char>>,
    pub requires: Seq<Seq<char>>,
    pub before: Seq<Seq<char>>,
    pub after: Seq<Seq<char>>,
}

/// One `Key=` line holding the space-joined items; no line at all when the
/// list is empty.
pub open spec fn spec_list_line(key: Seq<char>, items: Seq<Seq<char>>) -> Seq<char> {
    if items.len() == 0 {
        Seq::empty()
    } else {
        key + join_spaces(items) + "\n"@
    }
}

/// Each dependency target followed by the service-unit suffix `.service`.
pub open spec fn spec_service_units(targets: Seq<Seq<char>>) -> Seq<Seq<char>> {
    targets.map_values(|t: Seq<char>| t + ".service"@)
}

impl UnitView {
    /// A section is empty exactly when its description is absent and all
    /// four dependency sequences are empty.
    pub open spec fn spec_is_empty(&self) -> bool {
        &&& self.description is None
        &&& self.wants.len() == 0
        &&& self.requires.len() == 0
        &&& self.before.len() == 0
        &&& self.after.len() == 0
    }

    /// The text of the section: the `[Unit]` header, then one line per
    /// populated field in this fixed order: description, wants, requires,
    /// before, after. Each field is checked for emptiness on its own; in
    /// particular the `After=` line is present exactly when `after` is
    /// non-empty, whatever `before` holds.
    pub open spec fn spec_render(&self) -> Seq<char> {
        "[Unit]\n"@ + (match self.description {
            Some(d) => "Description="@ + d + "\n"@,
            None => Seq::<char>::empty(),
        }) + spec_list_line("Wants="@, self.wants) + spec_list_line("Requires="@, self.requires)
            + spec_list_line("Before="@, self.before) + spec_list_line("After="@, self.after)
    }
}

/// Common systemd unit options: a description and the `Wants`, `Requires`,
/// `Before` and `After` dependency lists, each insertion-ordered and kept
/// with duplicates.
#[derive(Debug, Clone, PartialEq)]
pub struct Unit {
    pub description: Option<String>,
    pub wants: Vec<String>,
    pub requires: Vec<String>,
    pub before: Vec<String>,
    pub after: Vec<String>,
}

impl View for Unit {
    type V = UnitView;

    open spec fn view(&self) -> UnitView {
        UnitView {
            description: self.description.deep_view(),
            wants: self.wants.deep_view(),
            requires: self.requires.deep_view(),
            before: self.before.deep_view(),
            after: self.after.deep_view(),
        }
    }
}

impl Default for Unit {
    /// A freshly constructed unit section is empty.
    fn default() -> (u: Unit)
        ensures
            u@.spec_is_empty(),
    {
        Unit {
            description: None,
            wants: Vec::new(),
            requires: Vec::new(),
            before: Vec::new(),
            after: Vec::new(),
        }
    }
}

impl Unit {
    /// True exactly when no field of the section has content.
    pub fn is_empty(&self) -> (r: bool)
        ensures
            r == self@.spec_is_empty(),
    {
        self.description.is_none() && self.wants.len() == 0 && self.requires.len() == 0
            && self.before.len() == 0 && self.after.len() == 0
    }

    /// Append each dependency target of the graph, suffixed with
    /// `.service`, to `requires`, in the graph's stored order; every other
    /// field is kept as it was. Entries are never deduplicated.
    pub fn add_dependencies(&mut self, depends_on: docker_compose_types::DependsOnOptions)
        ensures
            final(self)@.requires == old(self)@.requires + spec_service_units(
                depends_targets(depends_on),
            ),
            final(self)@.description == old(self)@.description,
            final(self)@.wants == old(self)@.wants,
            final(self)@.before == old(self)@.before,
            final(self)@.after == old(self)@.after,
    {
        let ghost dt = depends_targets(depends_on);
        let targets = depends_on_targets(depends_on);
        let n = targets.len();
        let mut i: usize = 0;
        proof {
            assert(self@.requires + spec_service_units(dt.take(0)) =~= self@.requires);
        }
        while i < n
            invariant
                i <= n,
                n == targets@.len(),
                targets.deep_view() == dt,
                self@.requires == old(self)@.requires + spec_service_units(dt.take(i as int)),
                self@.description == old(self)@.description,
                self@.wants == old(self)@.wants,
                self@.before == old(self)@.before,
                self@.after == old(self)@.after,
            decreases n - i,
        {
            let mut unit_name = targets[i].clone();
            proof {
                assert(unit_name@ == dt[i as int]);
            }
            unit_name.append(".service");
            self.requires.push(unit_name);
            proof {
                assert(self.requires.deep_view() =~= (old(self)@.requires + spec_service_units(
                    dt.take(i as int),
                )).push(dt[i as int] + ".service"@));
                assert(spec_service_units(dt.take(i + 1 as int)) =~= spec_service_units(
                    dt.take(i as int),
                ).push(dt[i as int] + ".service"@));
                assert((old(self)@.requires + spec_service_units(dt.take(i as int))).push(
                    dt[i as int] + ".service"@,
                ) =~= old(self)@.requires + spec_service_units(dt.take(i + 1 as int)));
            }
            i += 1;
        }
        proof {
            assert(dt.take(n as int) =~= dt);
        }
    }

    /// Render the section as quadlet text. The output is exactly
    /// `spec_render` of the section's value, so rendering never mutates the
    /// section and two renderings of one value are identical.
    pub fn render(&self) -> (r: String)
        ensures
            r@ == self@.spec_render(),
    {
        let ghost header = "[Unit]\n"@;
        let ghost dsc = (match self@.description {
            Some(d) => "Description="@ + d + "\n"@,
            None => Seq::<char>::empty(),
        });
        let mut out = String::from_str("[Unit]\n");
        if let Some(d) = &self.description {
            out.append("Description=");
            out.append(d.as_str());
            out.append("\n");
        }
        proof {
            assert(out@ =~= header + dsc);
        }
        append_list_line(&mut out, "Wants=", &self.wants);
        proof {
            assert(out@ =~= header + dsc + spec_list_line("Wants="@, self@.wants));
        }
        append_list_line(&mut out, "Requires=", &self.requires);
        proof {
            assert(out@ =~= header + dsc + spec_list_line("Wants="@, self@.wants)
                + spec_list_line("Requires="@, self@.requires));
        }
        append_list_line(&mut out, "Before=", &self.before);
        proof {
            assert(out@ =~= header + dsc + spec_list_line("Wants="@, self@.wants)
                + spec_list_line("Requires="@, self@.requires) + spec_list_line(
                "Before="@,
                self@.before,
            ));
        }
        append_list_line(&mut out, "After=", &self.after);
        proof {
            assert(out@ =~= self@.spec_render());
        }
        out
    }
}

/// Append one `Key=` line holding the space-joined items; append nothing
/// when the list is empty.
fn append_list_line(out: &mut String, key: &str, items: &Vec<String>)
    ensures
        final(out)@ == old(out)@ + spec_list_line(key@, items.deep_view()),
{
    proof {
        assert(items.deep_view().len() == items@.len());
    }
    if items.len() > 0 {
        out.append(key);
        let joined = join_space(items);
        out.append(joined.as_str());
        out.append("\n");
        proof {
            assert(out@ =~= old(out)@ + (key@ + join_spaces(items.deep_view()) + "\n"@));
        }
    } else {
        proof {
            assert(old(out)@ + Seq::<char>::empty() =~= old(out)@);
        }
    }
}

/// Law: appending any single dependency identifier to any one of the four
/// dependency sequences of a unit section leaves it non-empty.
pub proof fn lemma_append_makes_nonempty(u: UnitView, dep: Seq<char>)
    ensures
        !(UnitView { wants: u.wants.push(dep), ..u }).spec_is_empty(),
        !(UnitView { requires: u.requires.push(dep), ..u }).spec_is_empty(),
        !(UnitView { before: u.before.push(dep), ..u }).spec_is_empty(),
        !(UnitView { after: u.after.push(dep), ..u }).spec_is_empty(),
{
}

/// Law: the rendered text is a pure function of the section's value, so two
/// renderings of the same unmutated section are byte-for-byte identical.
pub proof fn lemma_render_deterministic(u: UnitView, r1: Seq<char>, r2: Seq<char>)
    requires
        r1 == u.spec_render(),
        r2 == u.spec_render(),
    ensures
        r1 == r2,
{
}


} // verus!
