//! The documents of a bundle that are rendered from templates: the property
//! list of a macOS application, and the resource script and the manifest of a
//! Windows executable.
use vstd::prelude::*;
use crate::error::Error;
use crate::text::{opt_text, owned};

verus! {

/// The property list of a macOS application bundle.
pub const INFO_PLIST: &'static str = r#"<?xml version="1.0" encoding="UTF-8"?>
<!DOCTYPE plist PUBLIC "-//Apple Computer//DTD PLIST 1.0//EN" "http://www.apple.com/DTDs/PropertyList-1.0.dtd">
<plist version="1.0">
<dict>
  <key>CFBundleDevelopmentRegion</key>
  <string>English</string>
  <key>CFBundleDisplayName</key>
  <string>{{bundle_display_name}}</string>
  <key>CFBundleExecutable</key>
  <string>{{executable_name}}</string>
  <key>CFBundleIdentifier</key>
  <string>{{bundle_identifier}}</string>
  <key>CFBundleIconFile</key>
  <string>{{bundle_icon}}</string>
  <key>CFBundleInfoDictionaryVersion</key>
  <string>6.0</string>
  <key>CFBundleName</key>
  <string>{{bundle_name}}</string>
  <key>CFBundlePackageType</key>
  <string>APPL</string>
  <key>CFBundleShortVersionString</key>
  <string>{{bundle_version}}</string>
  <key>CFBundleVersion</key>
  <string>{{bundle_version}}</string>
  <key>CSResourcesFileMapped</key>
  <true/>
  <key>LSRequiresCarbon</key>
  <true/>
  <key>NSHighResolutionCapable</key>
  <true/>
  <key>LSEnvironment</key>
	<dict>
	<key>WANTS_INTERACTIVE_SESSION</key>
	<string>true</string>
	</dict>
</dict>
</plist>
"#;

/// The manifest of a Windows executable: awareness of the display's
/// resolution, and the common controls it depends on.
pub const MANIFEST: &'static str = r#"<?xml version="1.0" encoding="UTF-8" standalone="yes"?>
<assembly manifestVersion="1.0" xmlns="urn:schemas-microsoft-com:asm.v1" xmlns:asmv3="urn:schemas-microsoft-com:asm.v3">
    <assemblyIdentity
            version="1.0.0.0"
            processorArchitecture="*"
            name="{{bundle_identifier}}"
            type="win32"
    />
    <description>Rust Manifest Example</description>
    <dependency>
        <dependentAssembly>
            <assemblyIdentity
                    type="win32"
                    name="Microsoft.Windows.Common-Controls"
                    version="6.0.0.0"
                    processorArchitecture="*"
                    publicKeyToken="6595b64144ccf1df"
                    language="*"
            />
        </dependentAssembly>
    </dependency>
    <asmv3:application>
        <asmv3:windowsSettings>
            <dpiAware xmlns="http://schemas.microsoft.com/SMI/2005/WindowsSettings">True/PM</dpiAware>
            <dpiAwareness xmlns="http://schemas.microsoft.com/SMI/2016/WindowsSettings">PerMonitorV2</dpiAwareness>
        </asmv3:windowsSettings>
    </asmv3:application>
</assembly>
"#;

/// The resource script of a Windows executable: its manifest, its icon and
/// its version information.
pub const RESOURCE: &'static str = "#\x69nclude \"windows.h\"

1 RT_MANIFEST \"{{executable_name}}.manifest\"
{{{bundle_icon}}}

VS_VERSION_INFO VERSIONINFO
FILEVERSION     {{bundle_major_version}},{{bundle_minor_version}},{{bundle_patch_version}},0
PRODUCTVERSION  {{bundle_major_version}},{{bundle_minor_version}},{{bundle_patch_version}},0
FILEFLAGSMASK   VS_FFI_FILEFLAGSMASK
FILEFLAGS       VS_FF_DEBUG
FILEOS          VOS__WINDOWS32
FILETYPE        VFT_APP
FILESUBTYPE     VFT2_UNKNOWN
BEGIN
    BLOCK \"StringFileInfo\"
    BEGIN
        BLOCK \"040904E4\"    // Lang=US English, CharSet=Windows Multilin
        BEGIN
            VALUE \"CompanyName\", \"{{bundle_author}}\\0\"
            VALUE \"FileDescription\", \"{{bundle_name}}\\0\"
            VALUE \"FileVersion\", \"{{bundle_major_version}}.{{bundle_minor_version}}.{{bundle_patch_version}}\\0\"
            VALUE \"ProductName\", \"{{bundle_name}}\\0\"
            VALUE \"ProductVersion\", \"{{bundle_major_version}}.{{bundle_minor_version}}.{{bundle_patch_version}}\\0\"
        END
    END
    BLOCK \"VarFileInfo\"
    BEGIN
        VALUE \"Translation\", 0x409, 1252
    END
END
";

/// A template of this library.
#[derive(Copy, Clone, Debug, PartialEq, Eq, Structural)]
pub enum Template {
    InfoPlist,
    Manifest,
    Resource,
}

impl Template {
    /// The text of the template.
    pub open spec fn source(self) -> Seq<char> {
        match self {
            Template::InfoPlist => INFO_PLIST@,
            Template::Manifest => MANIFEST@,
            Template::Resource => RESOURCE@,
        }
    }

    /// The name of the document that the template renders.
    pub open spec fn name(self) -> Seq<char> {
        match self {
            Template::InfoPlist => "Info.plist"@,
            Template::Manifest => "manifest"@,
            Template::Resource => "resource script"@,
        }
    }

    pub fn as_str(&self) -> (source: &'static str)
        ensures
            source@ == self.source(),
    {
        match self {
            Template::InfoPlist => INFO_PLIST,
            Template::Manifest => MANIFEST,
            Template::Resource => RESOURCE,
        }
    }

    pub fn title(&self) -> (name: &'static str)
        ensures
            name@ == self.name(),
    {
        match self {
            Template::InfoPlist => "Info.plist",
            Template::Manifest => "manifest",
            Template::Resource => "resource script",
        }
    }
}

/// A value that a template refers to by name.
#[derive(Clone, Debug, PartialEq, Eq)]
pub struct TemplateValue {
    pub name: String,
    pub value: String,
}

impl TemplateValue {
    pub open spec fn pair(self) -> (Seq<char>, Seq<char>) {
        (self.name@, self.value@)
    }

    pub fn new(name: &str, value: &str) -> (made: TemplateValue)
        ensures
            made.pair() == (name@, value@),
    {
        TemplateValue { name: owned(name), value: owned(value) }
    }
}

/// The names and values of a list.
pub open spec fn bindings(values: Seq<TemplateValue>) -> Seq<(Seq<char>, Seq<char>)> {
    values.map_values(|v: TemplateValue| v.pair())
}

/// The value that `name` has in `values`: that of its last binding.
pub open spec fn bound(values: Seq<(Seq<char>, Seq<char>)>, name: Seq<char>) -> Option<Seq<char>>
    decreases values.len(),
{
    if values.len() == 0 {
        None
    } else if values.last().0 == name {
        Some(values.last().1)
    } else {
        bound(values.drop_last(), name)
    }
}

/// A value under whose name no later value stands is the value of that name.
pub proof fn lemma_bound_at(values: Seq<(Seq<char>, Seq<char>)>, at: int)
    requires
        0 <= at < values.len(),
        forall|later: int| at < later < values.len() ==> values[later].0 != values[at].0,
    ensures
        bound(values, values[at].0) == Some(values[at].1),
    decreases values.len(),
{
    if at < values.len() - 1 {
        let shorter = values.drop_last();
        assert(shorter[at] == values[at]);
        assert forall|later: int| at < later < shorter.len() implies shorter[later].0
            != shorter[at].0 by {
            assert(shorter[later] == values[later]);
        }
        lemma_bound_at(shorter, at);
    }
}

/// One more value at the end of `values`.
pub fn bind(values: &mut Vec<TemplateValue>, name: &str, value: &str)
    ensures
        bindings(final(values)@) == bindings(old(values)@).push((name@, value@)),
{
    let ghost before = values@;
    values.push(TemplateValue::new(name, value));
    assert(bindings(values@) =~= bindings(before).push((name@, value@)));
}

/// What the `mustache` crate renders from a template and the values of its
/// tags; nothing where it refuses the template.
pub uninterp spec fn mustache_rendering(
    template: Seq<char>,
    values: Seq<(Seq<char>, Seq<char>)>,
) -> Option<Seq<char>>;

/// Calls `mustache::compile_str` and `Template::render_data_to_string` on a map
/// that holds each value as a string under its name, a later value replacing an
/// earlier one of the same name. The result is what the crate renders, which
/// depends on the template and the values alone; it is `None` where the crate
/// reports an error. Only the templates of this library are handed to it: they
/// hold text and tags and nothing that makes the crate read a file.
#[verifier::external_body]
fn render_with_mustache(template: &str, values: &Vec<TemplateValue>) -> (rendered: Option<String>)
    requires
        exists|known: Template| template@ == known.source(),
    ensures
        opt_text(rendered) == mustache_rendering(template@, bindings(values@)),
{
    let mut builder = mustache::MapBuilder::new();
    for value in values.iter() {
        builder = builder.insert_str(value.name.clone(), value.value.clone());
    }
    let compiled = mustache::compile_str(template).ok()?;
    compiled.render_data_to_string(&builder.build()).ok()
}

/// The document that a rendering gives: the text where there is one, and the
/// error that names the document where there is none.
pub fn document(template: Template, rendered: Option<String>) -> (outcome: Result<String, Error>)
    ensures
        match outcome {
            Ok(text) => rendered == Some(text),
            Err(error) => {
                &&& rendered is None
                &&& error matches Error::Template { name }
                &&& name@ == template.name()
            },
        },
{
    match rendered {
        Some(text) => Ok(text),
        None => Err(Error::Template { name: owned(template.title()) }),
    }
}

/// Renders `template` with `values`.
pub fn render(template: Template, values: &Vec<TemplateValue>) -> (outcome: Result<String, Error>)
    ensures
        match outcome {
            Ok(text) => mustache_rendering(template.source(), bindings(values@)) == Some(text@),
            Err(error) => {
                &&& mustache_rendering(template.source(), bindings(values@)) is None
                &&& error matches Error::Template { name }
                &&& name@ == template.name()
            },
        },
{
    document(template, render_with_mustache(template.as_str(), values))
}

} // verus!
