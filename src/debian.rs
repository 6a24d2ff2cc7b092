//! Debian control paragraphs, control files and `.deb` archive steps, as
//! built from script arguments.
use vstd::prelude::*;
use crate::control::{ControlFile, ControlParagraph, Fields};
use crate::error::Error;
use crate::manifest::FileManifest;
use crate::text::join_spec;
use crate::value::{
    Object, Value, ValueType, is_list_of, list_mismatch, opt_list_mismatch, opt_str_mismatch, optional_list_arg,
    optional_str_arg, or_else, reported, required_list_arg, required_str_arg, required_type_arg, str_items,
    str_list_to_comma_string, str_mismatch, type_mismatch,
};

verus! {

/// The paragraph of one binary package inside a source control file.
#[derive(Debug, Clone)]
pub struct DebianControlSourceBinaryPackage {
    pub paragraph: ControlParagraph,
}

/// A source control file: the source paragraph, then one paragraph per
/// binary package.
#[derive(Debug, Clone)]
pub struct DebianControl {
    pub paragraphs: Vec<ControlParagraph>,
}

/// The control paragraph of a binary package.
#[derive(Debug, Clone)]
pub struct DebianControlBinaryPackage {
    pub paragraph: ControlParagraph,
}

/// A step that produces a `.deb` from a binary package paragraph and the
/// files to install.
#[derive(Debug, Clone)]
pub struct DebianDebArchive {
    pub control_file: DebianControlBinaryPackage,
    pub files: FileManifest,
}

/// The field `key` where a string was given; nothing where none was.
pub open spec fn opt_field(key: Seq<char>, v: Value) -> Fields {
    match v {
        Value::Str(s) => seq![(key, s@)],
        _ => Seq::empty(),
    }
}

/// The field `key` holding the strings of a list joined by `", "`, in the
/// order given; nothing where none was given.
pub open spec fn list_field(key: Seq<char>, v: Value) -> Fields {
    match v {
        Value::List(items) => seq![(key, join_spec(str_items(items@), ", "@))],
        _ => Seq::empty(),
    }
}

fn add_optional(paragraph: &mut ControlParagraph, key: &str, v: &Value)
    ensures
        final(paragraph)@ == old(paragraph)@ + opt_field(key@, *v),
{
    match v {
        Value::Str(s) => {
            paragraph.add_entry(key, s.clone());
            proof {
                assert(final(paragraph)@ =~= old(paragraph)@ + opt_field(key@, *v));
            }
        },
        _ => {
            proof {
                assert(old(paragraph)@ =~= old(paragraph)@ + opt_field(key@, *v));
            }
        },
    }
}

fn add_list(paragraph: &mut ControlParagraph, key: &str, v: &Value)
    requires
        v is NoneValue || is_list_of(*v, ValueType::String),
    ensures
        final(paragraph)@ == old(paragraph)@ + list_field(key@, *v),
{
    match v {
        Value::List(_) => {
            let joined = str_list_to_comma_string(v);
            paragraph.add_entry(key, joined);
            proof {
                assert(final(paragraph)@ =~= old(paragraph)@ + list_field(key@, *v));
            }
        },
        _ => {
            proof {
                assert(old(paragraph)@ =~= old(paragraph)@ + list_field(key@, *v));
            }
        },
    }
}

/// The first argument of `debian_control_source_binary_package` that fails
/// its check, in declaration order.
pub open spec fn source_package_check(package: Value, architecture: Value, description: Value, section: Value, priority: Value, essential: Value, homepage: Value, built_using: Value, package_type: Value, depends: Value, pre_depends: Value, recommended: Value, suggests: Value, enhances: Value, breaks: Value, conflicts: Value) -> Option<crate::value::Mismatch> {
    or_else(str_mismatch("package"@, package), or_else(str_mismatch("architecture"@, architecture), or_else(str_mismatch("description"@, description), or_else(opt_str_mismatch("section"@, section), or_else(opt_str_mismatch("priority"@, priority), or_else(opt_str_mismatch("essential"@, essential), or_else(opt_str_mismatch("homepage"@, homepage), or_else(opt_str_mismatch("built_using"@, built_using), or_else(opt_str_mismatch("package_type"@, package_type), or_else(opt_list_mismatch("depends"@, ValueType::String, depends), or_else(opt_list_mismatch("pre_depends"@, ValueType::String, pre_depends), or_else(opt_list_mismatch("recommended"@, ValueType::String, recommended), or_else(opt_list_mismatch("suggests"@, ValueType::String, suggests), or_else(opt_list_mismatch("enhances"@, ValueType::String, enhances), or_else(opt_list_mismatch("breaks"@, ValueType::String, breaks), opt_list_mismatch("conflicts"@, ValueType::String, conflicts))))))))))))))))
}

/// The fields of a binary package paragraph of a source control file.
pub open spec fn source_package_fields(package: Value, architecture: Value, description: Value, section: Value, priority: Value, essential: Value, homepage: Value, built_using: Value, package_type: Value, depends: Value, pre_depends: Value, recommended: Value, suggests: Value, enhances: Value, breaks: Value, conflicts: Value) -> Fields {
    seq![("Package"@, package->Str_0@)] + seq![("Architecture"@, architecture->Str_0@)] + seq![("Description"@, description->Str_0@)] + opt_field("Section"@, section) + opt_field("Priority"@, priority) + opt_field("Essential"@, essential) + opt_field("Homepage"@, homepage) + opt_field("Built-Using"@, built_using) + opt_field("Package-Type"@, package_type) + list_field("Depends"@, depends) + list_field("Pre-Depends"@, pre_depends) + list_field("Recommends"@, recommended) + list_field("Suggests"@, suggests) + list_field("Enhances"@, enhances) + list_field("Breaks"@, breaks) + list_field("Conflicts"@, conflicts)
}

/// A binary package paragraph for a source control file: `package`,
/// `architecture` and `description` are required strings, the other
/// arguments optional strings or optional lists of strings.
#[verifier::rlimit(60)]
pub fn debian_control_source_binary_package(
    package: &Value,
    architecture: &Value,
    description: &Value,
    section: &Value,
    priority: &Value,
    essential: &Value,
    homepage: &Value,
    built_using: &Value,
    package_type: &Value,
    depends: &Value,
    pre_depends: &Value,
    recommended: &Value,
    suggests: &Value,
    enhances: &Value,
    breaks: &Value,
    conflicts: &Value,
) -> (r: Result<DebianControlSourceBinaryPackage, Error>)
    ensures
        reported(r, source_package_check(*package, *architecture, *description, *section, *priority, *essential, *homepage, *built_using, *package_type, *depends, *pre_depends, *recommended, *suggests, *enhances, *breaks, *conflicts)),
        r is Ok ==> r->Ok_0.paragraph@ == source_package_fields(*package, *architecture, *description, *section, *priority, *essential, *homepage, *built_using, *package_type, *depends, *pre_depends, *recommended, *suggests, *enhances, *breaks, *conflicts),
{
    let package_s = required_str_arg("package", package)?;
    let architecture_s = required_str_arg("architecture", architecture)?;
    let description_s = required_str_arg("description", description)?;
    optional_str_arg("section", section)?;
    optional_str_arg("priority", priority)?;
    optional_str_arg("essential", essential)?;
    optional_str_arg("homepage", homepage)?;
    optional_str_arg("built_using", built_using)?;
    optional_str_arg("package_type", package_type)?;
    optional_list_arg("depends", ValueType::String, depends)?;
    optional_list_arg("pre_depends", ValueType::String, pre_depends)?;
    optional_list_arg("recommended", ValueType::String, recommended)?;
    optional_list_arg("suggests", ValueType::String, suggests)?;
    optional_list_arg("enhances", ValueType::String, enhances)?;
    optional_list_arg("breaks", ValueType::String, breaks)?;
    optional_list_arg("conflicts", ValueType::String, conflicts)?;
    let mut paragraph = ControlParagraph::new();
    paragraph.add_entry("Package", package_s);
    paragraph.add_entry("Architecture", architecture_s);
    paragraph.add_entry("Description", description_s);
    add_optional(&mut paragraph, "Section", section);
    add_optional(&mut paragraph, "Priority", priority);
    add_optional(&mut paragraph, "Essential", essential);
    add_optional(&mut paragraph, "Homepage", homepage);
    add_optional(&mut paragraph, "Built-Using", built_using);
    add_optional(&mut paragraph, "Package-Type", package_type);
    add_list(&mut paragraph, "Depends", depends);
    add_list(&mut paragraph, "Pre-Depends", pre_depends);
    add_list(&mut paragraph, "Recommends", recommended);
    add_list(&mut paragraph, "Suggests", suggests);
    add_list(&mut paragraph, "Enhances", enhances);
    add_list(&mut paragraph, "Breaks", breaks);
    add_list(&mut paragraph, "Conflicts", conflicts);
    proof {
        assert(paragraph@ =~= source_package_fields(*package, *architecture, *description, *section, *priority, *essential, *homepage, *built_using, *package_type, *depends, *pre_depends, *recommended, *suggests, *enhances, *breaks, *conflicts));
    }
    Ok(DebianControlSourceBinaryPackage { paragraph })
}

/// The first argument of `debian_control_binary_package` that fails its
/// check, in declaration order.
pub open spec fn binary_package_check(package: Value, version: Value, architecture: Value, maintainer: Value, description: Value, source: Value, section: Value, priority: Value, essential: Value, depends: Value, pre_depends: Value, recommended: Value, suggests: Value, enhances: Value, breaks: Value, conflicts: Value, installed_size: Value, homepage: Value, built_using: Value) -> Option<crate::value::Mismatch> {
    or_else(str_mismatch("package"@, package), or_else(str_mismatch("version"@, version), or_else(str_mismatch("architecture"@, architecture), or_else(str_mismatch("maintainer"@, maintainer), or_else(str_mismatch("description"@, description), or_else(opt_str_mismatch("source"@, source), or_else(opt_str_mismatch("section"@, section), or_else(opt_str_mismatch("priority"@, priority), or_else(opt_str_mismatch("essential"@, essential), or_else(opt_list_mismatch("depends"@, ValueType::String, depends), or_else(opt_list_mismatch("pre_depends"@, ValueType::String, pre_depends), or_else(opt_list_mismatch("recommended"@, ValueType::String, recommended), or_else(opt_list_mismatch("suggests"@, ValueType::String, suggests), or_else(opt_list_mismatch("enhances"@, ValueType::String, enhances), or_else(opt_list_mismatch("breaks"@, ValueType::String, breaks), or_else(opt_list_mismatch("conflicts"@, ValueType::String, conflicts), or_else(opt_str_mismatch("installed_size"@, installed_size), or_else(opt_str_mismatch("homepage"@, homepage), opt_str_mismatch("built_using"@, built_using)))))))))))))))))))
}

/// The fields of a binary package's control paragraph.
pub open spec fn binary_package_fields(package: Value, version: Value, architecture: Value, maintainer: Value, description: Value, source: Value, section: Value, priority: Value, essential: Value, depends: Value, pre_depends: Value, recommended: Value, suggests: Value, enhances: Value, breaks: Value, conflicts: Value, installed_size: Value, homepage: Value, built_using: Value) -> Fields {
    seq![("Package"@, package->Str_0@)] + seq![("Version"@, version->Str_0@)] + seq![("Architecture"@, architecture->Str_0@)] + seq![("Maintainer"@, maintainer->Str_0@)] + seq![("Description"@, description->Str_0@)] + opt_field("Source"@, source) + opt_field("Section"@, section) + opt_field("Priority"@, priority) + opt_field("Essential"@, essential) + list_field("Depends"@, depends) + list_field("Pre-Depends"@, pre_depends) + list_field("Recommends"@, recommended) + list_field("Suggests"@, suggests) + list_field("Enhances"@, enhances) + list_field("Breaks"@, breaks) + list_field("Conflicts"@, conflicts) + opt_field("Installed-Size"@, installed_size) + opt_field("Homepage"@, homepage) + opt_field("Built-Using"@, built_using)
}

/// A binary package's control paragraph: `package`, `version`,
/// `architecture`, `maintainer` and `description` are required strings, the
/// other arguments optional strings or optional lists of strings.
#[verifier::rlimit(60)]
pub fn debian_control_binary_package(
    package: &Value,
    version: &Value,
    architecture: &Value,
    maintainer: &Value,
    description: &Value,
    source: &Value,
    section: &Value,
    priority: &Value,
    essential: &Value,
    depends: &Value,
    pre_depends: &Value,
    recommended: &Value,
    suggests: &Value,
    enhances: &Value,
    breaks: &Value,
    conflicts: &Value,
    installed_size: &Value,
    homepage: &Value,
    built_using: &Value,
) -> (r: Result<DebianControlBinaryPackage, Error>)
    ensures
        reported(r, binary_package_check(*package, *version, *architecture, *maintainer, *description, *source, *section, *priority, *essential, *depends, *pre_depends, *recommended, *suggests, *enhances, *breaks, *conflicts, *installed_size, *homepage, *built_using)),
        r is Ok ==> r->Ok_0.paragraph@ == binary_package_fields(*package, *version, *architecture, *maintainer, *description, *source, *section, *priority, *essential, *depends, *pre_depends, *recommended, *suggests, *enhances, *breaks, *conflicts, *installed_size, *homepage, *built_using),
{
    let package_s = required_str_arg("package", package)?;
    let version_s = required_str_arg("version", version)?;
    let architecture_s = required_str_arg("architecture", architecture)?;
    let maintainer_s = required_str_arg("maintainer", maintainer)?;
    let description_s = required_str_arg("description", description)?;
    optional_str_arg("source", source)?;
    optional_str_arg("section", section)?;
    optional_str_arg("priority", priority)?;
    optional_str_arg("essential", essential)?;
    optional_list_arg("depends", ValueType::String, depends)?;
    optional_list_arg("pre_depends", ValueType::String, pre_depends)?;
    optional_list_arg("recommended", ValueType::String, recommended)?;
    optional_list_arg("suggests", ValueType::String, suggests)?;
    optional_list_arg("enhances", ValueType::String, enhances)?;
    optional_list_arg("breaks", ValueType::String, breaks)?;
    optional_list_arg("conflicts", ValueType::String, conflicts)?;
    optional_str_arg("installed_size", installed_size)?;
    optional_str_arg("homepage", homepage)?;
    optional_str_arg("built_using", built_using)?;
    let mut paragraph = ControlParagraph::new();
    paragraph.add_entry("Package", package_s);
    paragraph.add_entry("Version", version_s);
    paragraph.add_entry("Architecture", architecture_s);
    paragraph.add_entry("Maintainer", maintainer_s);
    paragraph.add_entry("Description", description_s);
    add_optional(&mut paragraph, "Source", source);
    add_optional(&mut paragraph, "Section", section);
    add_optional(&mut paragraph, "Priority", priority);
    add_optional(&mut paragraph, "Essential", essential);
    add_list(&mut paragraph, "Depends", depends);
    add_list(&mut paragraph, "Pre-Depends", pre_depends);
    add_list(&mut paragraph, "Recommends", recommended);
    add_list(&mut paragraph, "Suggests", suggests);
    add_list(&mut paragraph, "Enhances", enhances);
    add_list(&mut paragraph, "Breaks", breaks);
    add_list(&mut paragraph, "Conflicts", conflicts);
    add_optional(&mut paragraph, "Installed-Size", installed_size);
    add_optional(&mut paragraph, "Homepage", homepage);
    add_optional(&mut paragraph, "Built-Using", built_using);
    proof {
        assert(paragraph@ =~= binary_package_fields(*package, *version, *architecture, *maintainer, *description, *source, *section, *priority, *essential, *depends, *pre_depends, *recommended, *suggests, *enhances, *breaks, *conflicts, *installed_size, *homepage, *built_using));
    }
    Ok(DebianControlBinaryPackage { paragraph })
}

/// The first argument of `debian_control` that fails its check, in
/// declaration order.
pub open spec fn control_check(
    source: Value,
    maintainer: Value,
    standards_version: Value,
    uploaders: Value,
    section: Value,
    priority: Value,
    build_depends: Value,
    homepage: Value,
    vcs_type: Value,
    vcs_value: Value,
    vcs_browser: Value,
    rules_requires_root: Value,
    binary_packages: Value,
) -> Option<crate::value::Mismatch> {
    or_else(str_mismatch("source"@, source), or_else(str_mismatch("maintainer"@, maintainer), or_else(
        str_mismatch("standards_version"@, standards_version),
        or_else(opt_list_mismatch("uploaders"@, ValueType::String, uploaders), or_else(
            opt_str_mismatch("section"@, section),
            or_else(opt_str_mismatch("priority"@, priority), or_else(
                opt_list_mismatch("build_depends"@, ValueType::String, build_depends),
                or_else(opt_str_mismatch("homepage"@, homepage), or_else(
                    opt_str_mismatch("vcs_type"@, vcs_type),
                    or_else(opt_str_mismatch("vcs_value"@, vcs_value), or_else(
                        opt_str_mismatch("vcs_browser"@, vcs_browser),
                        or_else(
                            opt_str_mismatch("rules_requires_root"@, rules_requires_root),
                            list_mismatch("binary_packages"@, ValueType::DebianControlSourceBinaryPackage, binary_packages),
                        ),
                    )),
                )),
            )),
        )),
    )))
}

/// The `Vcs-<type>` field, where both a type and a value were given.
pub open spec fn vcs_field(vcs_type: Value, vcs_value: Value) -> Fields {
    match (vcs_type, vcs_value) {
        (Value::Str(t), Value::Str(v)) => seq![(seq!['V', 'c', 's', '-'] + t@, v@)],
        _ => Seq::empty(),
    }
}

/// The fields of the source paragraph.
pub open spec fn source_fields(
    source: Value,
    maintainer: Value,
    standards_version: Value,
    uploaders: Value,
    section: Value,
    priority: Value,
    build_depends: Value,
    homepage: Value,
    vcs_type: Value,
    vcs_value: Value,
    vcs_browser: Value,
    rules_requires_root: Value,
) -> Fields {
    seq![("Source"@, source->Str_0@), ("Maintainer"@, maintainer->Str_0@), ("Standards-Version"@, standards_version->Str_0@)]
        + list_field("Uploaders"@, uploaders) + opt_field("Section"@, section) + opt_field("Priority"@, priority)
        + list_field("Build-Depends"@, build_depends) + opt_field("Homepage"@, homepage) + vcs_field(vcs_type, vcs_value)
        + opt_field("Vcs-Browser"@, vcs_browser) + opt_field("Rules-Requires-Root"@, rules_requires_root)
}

/// The paragraphs of the binary packages in a list of them.
pub open spec fn package_paragraphs(items: Seq<Value>) -> Seq<Fields> {
    items.map_values(|v: Value| match v {
        Value::Object(Object::DebianControlSourceBinaryPackage(p)) => p.paragraph@,
        _ => Seq::empty(),
    })
}

/// A source control file: the source paragraph built from the arguments,
/// followed by the paragraphs of `binary_packages` in order.
pub fn debian_control(
    source: &Value,
    maintainer: &Value,
    standards_version: &Value,
    uploaders: &Value,
    section: &Value,
    priority: &Value,
    build_depends: &Value,
    homepage: &Value,
    vcs_type: &Value,
    vcs_value: &Value,
    vcs_browser: &Value,
    rules_requires_root: &Value,
    binary_packages: &Value,
) -> (r: Result<DebianControl, Error>)
    ensures
        reported(
            r,
            control_check(
                *source,
                *maintainer,
                *standards_version,
                *uploaders,
                *section,
                *priority,
                *build_depends,
                *homepage,
                *vcs_type,
                *vcs_value,
                *vcs_browser,
                *rules_requires_root,
                *binary_packages,
            ),
        ),
        r is Ok ==> r->Ok_0.paragraphs@.map_values(|p: ControlParagraph| p@) == seq![
            source_fields(
                *source,
                *maintainer,
                *standards_version,
                *uploaders,
                *section,
                *priority,
                *build_depends,
                *homepage,
                *vcs_type,
                *vcs_value,
                *vcs_browser,
                *rules_requires_root,
            ),
        ] + package_paragraphs(binary_packages->List_0@),
{
    let source_s = required_str_arg("source", source)?;
    let maintainer_s = required_str_arg("maintainer", maintainer)?;
    let standards_s = required_str_arg("standards_version", standards_version)?;
    optional_list_arg("uploaders", ValueType::String, uploaders)?;
    optional_str_arg("section", section)?;
    optional_str_arg("priority", priority)?;
    optional_list_arg("build_depends", ValueType::String, build_depends)?;
    optional_str_arg("homepage", homepage)?;
    let vcs_type_s = optional_str_arg("vcs_type", vcs_type)?;
    let vcs_value_s = optional_str_arg("vcs_value", vcs_value)?;
    optional_str_arg("vcs_browser", vcs_browser)?;
    optional_str_arg("rules_requires_root", rules_requires_root)?;
    required_list_arg("binary_packages", ValueType::DebianControlSourceBinaryPackage, binary_packages)?;
    let mut paragraph = ControlParagraph::new();
    paragraph.add_entry("Source", source_s);
    paragraph.add_entry("Maintainer", maintainer_s);
    paragraph.add_entry("Standards-Version", standards_s);
    add_list(&mut paragraph, "Uploaders", uploaders);
    add_optional(&mut paragraph, "Section", section);
    add_optional(&mut paragraph, "Priority", priority);
    add_list(&mut paragraph, "Build-Depends", build_depends);
    add_optional(&mut paragraph, "Homepage", homepage);
    let ghost before_vcs = paragraph@;
    match (vcs_type_s, vcs_value_s) {
        (Some(t), Some(v)) => {
            proof {
                reveal_strlit("Vcs-");
            }
            let mut key = String::from_str("Vcs-");
            key.append(t.as_str());
            assert(key@ == seq!['V', 'c', 's', '-'] + t@);
            let ghost vv = v@;
            paragraph.add_entry(key.as_str(), v);
            proof {
                assert(vcs_field(*vcs_type, *vcs_value) == seq![(key@, vv)]);
                assert(paragraph@ =~= before_vcs + vcs_field(*vcs_type, *vcs_value));
            }
        },
        _ => {
            proof {
                assert(paragraph@ =~= before_vcs + vcs_field(*vcs_type, *vcs_value));
            }
        },
    }
    add_optional(&mut paragraph, "Vcs-Browser", vcs_browser);
    add_optional(&mut paragraph, "Rules-Requires-Root", rules_requires_root);
    let ghost first = paragraph@;
    proof {
        assert(first =~= source_fields(
            *source,
            *maintainer,
            *standards_version,
            *uploaders,
            *section,
            *priority,
            *build_depends,
            *homepage,
            *vcs_type,
            *vcs_value,
            *vcs_browser,
            *rules_requires_root,
        ));
    }
    let mut paragraphs: Vec<ControlParagraph> = Vec::new();
    paragraphs.push(paragraph);
    match binary_packages {
        Value::List(items) => {
            let mut i: usize = 0;
            while i < items.len()
                invariant
                    0 <= i <= items.len(),
                    is_list_of(*binary_packages, ValueType::DebianControlSourceBinaryPackage),
                    *binary_packages == Value::List(*items),
                    paragraphs@.map_values(|p: ControlParagraph| p@) =~= seq![first] + package_paragraphs(
                        items@.subrange(0, i as int),
                    ),
                decreases items.len() - i,
            {
                let ghost prev = paragraphs@;
                proof {
                    assert(items@[i as int].type_spec() == ValueType::DebianControlSourceBinaryPackage);
                    assert(package_paragraphs(items@.subrange(0, i as int + 1)) =~= package_paragraphs(
                        items@.subrange(0, i as int),
                    ).push(package_paragraphs(items@)[i as int]));
                }
                match &items[i] {
                    Value::Object(Object::DebianControlSourceBinaryPackage(p)) => {
                        let copy = p.paragraph.duplicate();
                        paragraphs.push(copy);
                        proof {
                            assert(paragraphs@.map_values(|p: ControlParagraph| p@) =~= prev.map_values(
                                |p: ControlParagraph| p@,
                            ).push(copy@));
                        }
                    },
                    _ => {},
                }
                i = i + 1;
            }
            proof {
                assert(items@.subrange(0, i as int) =~= items@);
            }
        },
        _ => {},
    }
    Ok(DebianControl { paragraphs })
}

/// A `.deb` step from a binary package paragraph and a manifest; each is
/// copied, so later changes to either leave the step as it was.
pub fn debian_deb_archive(control_binary_package: &Value, files: &Value) -> (r: Result<DebianDebArchive, Error>)
    ensures
        reported(
            r,
            or_else(
                type_mismatch("control_binary_package"@, ValueType::DebianControlBinaryPackage, *control_binary_package),
                type_mismatch("files"@, ValueType::FileManifest, *files),
            ),
        ),
        r is Ok ==> r->Ok_0.control_file.paragraph@ == control_binary_package->Object_0->DebianControlBinaryPackage_0.paragraph@
            && r->Ok_0.files@ == files->Object_0->FileManifest_0@,
{
    required_type_arg("control_binary_package", ValueType::DebianControlBinaryPackage, control_binary_package)?;
    required_type_arg("files", ValueType::FileManifest, files)?;
    match (control_binary_package, files) {
        (Value::Object(Object::DebianControlBinaryPackage(p)), Value::Object(Object::FileManifest(m))) => {
            Ok(DebianDebArchive { control_file: DebianControlBinaryPackage { paragraph: p.paragraph.duplicate() }, files: m.snapshot() })
        },
        _ => Err(crate::error::mismatch("files", ValueType::FileManifest, files.value_type())),
    }
}

impl DebianDebArchive {
    /// An independent copy of the step.
    pub fn duplicate(&self) -> (r: DebianDebArchive)
        ensures
            r.control_file.paragraph@ == self.control_file.paragraph@,
            r.files@ == self.files@,
    {
        DebianDebArchive {
            control_file: DebianControlBinaryPackage { paragraph: self.control_file.paragraph.duplicate() },
            files: self.files.snapshot(),
        }
    }

    /// The control file of the package: the binary package paragraph alone.
    pub fn control(&self) -> (r: ControlFile)
        ensures
            r@ == seq![self.control_file.paragraph@],
    {
        let mut c = ControlFile::new();
        c.add_paragraph(self.control_file.paragraph.duplicate());
        proof {
            assert(c@ =~= seq![self.control_file.paragraph@]);
        }
        c
    }

    /// The package's file name, `<Package>_<Version>.deb`, where both fields
    /// are present.
    pub fn file_name(&self) -> (r: Option<String>)
        ensures
            match r {
                Some(s) => crate::deb::deb_name_spec(self.control_file.paragraph@) == Some(s@),
                None => crate::deb::deb_name_spec(self.control_file.paragraph@).is_none(),
            },
    {
        crate::deb::deb_file_name(&self.control_file.paragraph)
    }

    /// The bytes of the package, given the content of each manifest entry in
    /// order and the time stamped on every member.
    pub fn build(&self, data: &Vec<crate::deb::FileData>, mtime: u64) -> (r: Result<Vec<u8>, Error>)
        requires
            data@.len() == self.files@.len(),
        ensures
            crate::deb::keys_tar_ok(self.files@) ==> r is Ok,
            r is Ok ==> r->Ok_0@ == crate::deb::deb_bytes(seq![self.control_file.paragraph@], self.files@, data@, mtime),
            r is Err ==> r->Err_0 is IoFailure,
    {
        let c = self.control();
        crate::deb::build_deb(&c, &self.files, data, mtime)
    }
}

} // verus!
