//! The canonical quadlet resource model and its text rendering: the
//! kind-specific `[Kube]` section, and the envelope over all resource kinds
//! that picks the output file's base name.

use vstd::prelude::*;
use vstd::string::StrSliceExecFns;
use vstd::string::StringExecFns;

use crate::file::File;

verus! {

/// One `Key=` line per item, in order; nothing when the list is empty.
pub open spec fn spec_keyed_lines(key: Seq<char>, items: Seq<Seq<char>>) -> Seq<char>
    decreases items.len(),
{
    if items.len() == 0 {
        Seq::empty()
    } else {
        spec_keyed_lines(key, items.drop_last()) + key + items.last() + "\n"@
    }
}

/// One `Key=` line when the value is present; nothing otherwise.
pub open spec fn spec_opt_line(key: Seq<char>, value: Option<Seq<char>>) -> Seq<char> {
    match value {
        Some(v) => key + v + "\n"@,
        None => Seq::empty(),
    }
}

/// The canonical model of a "play a manifest" resource: the manifest file
/// reference (mandatory) and the options that tune how it is played.
#[derive(Debug, Clone, PartialEq)]
pub struct Kube {
    pub config_map: Vec<String>,
    pub log_driver: Option<String>,
    pub network: Vec<String>,
    pub publish_port: Vec<String>,
    pub user_ns: Option<String>,
    pub file: File,
}

impl Kube {
    /// The text of the `[Kube]` section: the header, the mandatory `Yaml=`
    /// line, then one line per populated field in this fixed order:
    /// `ConfigMap=` (one line per path), `LogDriver=`, `Network=` (one line
    /// per mode), `PublishPort=` (one line per specification), `UserNS=`.
    pub open spec fn spec_render(&self) -> Seq<char> {
        "[Kube]\n"@ + "Yaml="@ + self.file.spec_display() + "\n"@ + spec_keyed_lines(
            "ConfigMap="@,
            self.config_map.deep_view(),
        ) + spec_opt_line("LogDriver="@, self.log_driver.deep_view()) + spec_keyed_lines(
            "Network="@,
            self.network.deep_view(),
        ) + spec_keyed_lines("PublishPort="@, self.publish_port.deep_view()) + spec_opt_line(
            "UserNS="@,
            self.user_ns.deep_view(),
        )
    }

    /// Render the `[Kube]` section as quadlet text.
    pub fn render(&self) -> (r: String)
        ensures
            r@ == self.spec_render(),
    {
        let mut out = String::from_str("[Kube]\n");
        out.append("Yaml=");
        let rendered_file = self.file.display();
        out.append(rendered_file.as_str());
        out.append("\n");
        proof {
            assert(out@ =~= "[Kube]\n"@ + "Yaml="@ + self.file.spec_display() + "\n"@);
        }
        let ghost head = out@;
        append_keyed_lines(&mut out, "ConfigMap=", &self.config_map);
        proof {
            assert(out@ =~= head + spec_keyed_lines("ConfigMap="@, self.config_map.deep_view()));
        }
        append_opt_line(&mut out, "LogDriver=", &self.log_driver);
        proof {
            assert(out@ =~= head + spec_keyed_lines("ConfigMap="@, self.config_map.deep_view())
                + spec_opt_line("LogDriver="@, self.log_driver.deep_view()));
        }
        append_keyed_lines(&mut out, "Network=", &self.network);
        proof {
            assert(out@ =~= head + spec_keyed_lines("ConfigMap="@, self.config_map.deep_view())
                + spec_opt_line("LogDriver="@, self.log_driver.deep_view()) + spec_keyed_lines(
                "Network="@,
                self.network.deep_view(),
            ));
        }
        append_keyed_lines(&mut out, "PublishPort=", &self.publish_port);
        proof {
            assert(out@ =~= head + spec_keyed_lines("ConfigMap="@, self.config_map.deep_view())
                + spec_opt_line("LogDriver="@, self.log_driver.deep_view()) + spec_keyed_lines(
                "Network="@,
                self.network.deep_view(),
            ) + spec_keyed_lines("PublishPort="@, self.publish_port.deep_view()));
        }
        append_opt_line(&mut out, "UserNS=", &self.user_ns);
        proof {
            assert(out@ =~= self.spec_render());
        }
        out
    }
}

/// Append one `Key=` line per item, in order.
fn append_keyed_lines(out: &mut String, key: &str, items: &Vec<String>)
    ensures
        final(out)@ == old(out)@ + spec_keyed_lines(key@, items.deep_view()),
{
    let ghost dv = items.deep_view();
    let n = items.len();
    let mut i: usize = 0;
    proof {
        assert(out@ + spec_keyed_lines(key@, dv.take(0)) =~= out@);
    }
    while i < n
        invariant
            i <= n,
            n == items@.len(),
            dv == items.deep_view(),
            out@ == old(out)@ + spec_keyed_lines(key@, dv.take(i as int)),
        decreases n - i,
    {
        out.append(key);
        out.append(items[i].as_str());
        out.append("\n");
        proof {
            assert(dv.take(i + 1 as int).drop_last() =~= dv.take(i as int));
            assert(dv.take(i + 1 as int).last() == items@[i as int]@);
            assert(out@ =~= old(out)@ + spec_keyed_lines(key@, dv.take(i + 1 as int)));
        }
        i += 1;
    }
    proof {
        assert(dv.take(n as int) =~= dv);
    }
}

/// Append one `Key=` line when the value is present.
fn append_opt_line(out: &mut String, key: &str, value: &Option<String>)
    ensures
        final(out)@ == old(out)@ + spec_opt_line(key@, value.deep_view()),
{
    match value {
        Some(v) => {
            out.append(key);
            out.append(v.as_str());
            out.append("\n");
            proof {
                assert(out@ =~= old(out)@ + (key@ + v@ + "\n"@));
            }
        },
        None => {
            proof {
                assert(old(out)@ + Seq::<char>::empty() =~= old(out)@);
            }
        },
    }
}

/// The base name a file reference seeds for the output file: the derived
/// name of the reference when it is present and non-empty, and the fixed
/// fallback `pod` otherwise, so that the base name is never empty.
pub open spec fn spec_base_name(f: &File) -> Seq<char> {
    match f.spec_name() {
        Some(n) => if n.len() == 0 {
            "pod"@
        } else {
            n
        },
        None => "pod"@,
    }
}

/// The base name a file reference seeds: its derived name when that is
/// present and non-empty, and the fallback `pod` otherwise. Never empty.
pub fn base_name<'a>(f: &'a File) -> (r: &'a str)
    ensures
        r@ == spec_base_name(f),
        r@.len() > 0,
{
    proof {
        reveal_strlit("pod");
    }
    match f.name() {
        Some(n) => {
            if n.unicode_len() == 0 {
                "pod"
            } else {
                n
            }
        },
        None => "pod",
    }
}

/// The envelope over the closed set of resource kinds. Rendering and naming
/// are exhaustive matches over the kinds, so every kind is handled at every
/// call site.
#[derive(Debug, Clone, PartialEq)]
pub enum Resource {
    Kube(Kube),
}

impl Resource {
    /// The file reference the resource was built from.
    pub open spec fn spec_file(&self) -> &File {
        match self {
            Resource::Kube(kube) => &kube.file,
        }
    }

    /// The base name for the output file when the caller gave none: the
    /// file reference's derived name, or `pod` when none can be derived.
    /// Never empty.
    pub fn default_base_name<'a>(&'a self) -> (r: &'a str)
        ensures
            r@ == spec_base_name(self.spec_file()),
            r@.len() > 0,
    {
        match self {
            Resource::Kube(kube) => base_name(&kube.file),
        }
    }

    /// Render the resource's kind-specific section as quadlet text.
    pub fn render(&self) -> (r: String)
        ensures
            r@ == (match self {
                Resource::Kube(kube) => kube.spec_render(),
            }),
    {
        match self {
            Resource::Kube(kube) => kube.render(),
        }
    }
}

impl From<Kube> for Resource {
    /// Wrap a populated kind-specific model in the envelope.
    fn from(value: Kube) -> (r: Resource) {
        Resource::Kube(value)
    }
}

impl vstd::std_specs::convert::FromSpecImpl<Kube> for Resource {
    open spec fn obeys_from_spec() -> bool {
        true
    }

    open spec fn from_spec(value: Kube) -> Resource {
        Resource::Kube(value)
    }
}

} // verus!
