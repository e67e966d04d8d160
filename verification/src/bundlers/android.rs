//! The package of an Android application: its resources, its manifest and the
//! libraries that are put into it.
use vstd::prelude::*;
use crate::bundlers::{compiled_libraries, spec_compiled_libraries, Bundler, Inventory};
use crate::error::Error;
use crate::options::build_options::{Platform, Target};
use crate::options::bundle_options::{BundleOptions, Executable};
use crate::options::executable_options::ExecutableOptions;
use crate::options::resolved_options::{dotted, Version};
use crate::paths::{join, joined};
use crate::steps::{
    copy_contents, create_directories, no_steps, plan, push_step, remove_directory, Step, StepView,
};
use crate::text::{opt_text, owned, views};

verus! {

/// The bundler for Android.
#[derive(Copy, Clone, Debug, PartialEq, Eq)]
pub struct AndroidBundler {}

/// The architecture of the libraries of a package.
#[derive(Copy, Clone, Debug, PartialEq, Eq, Structural)]
pub enum AndroidTarget {
    Arm64V8a,
}

/// A permission that the application asks for.
#[derive(Clone, Debug, PartialEq, Eq)]
pub struct Permission {
    pub name: String,
    pub max_sdk_version: Option<u32>,
}

/// A named value of the manifest.
#[derive(Clone, Debug, PartialEq, Eq)]
pub struct MetaData {
    pub name: String,
    pub value: String,
}

/// The intents that an activity answers.
#[derive(Clone, Debug, PartialEq, Eq)]
pub struct IntentFilter {
    pub actions: Vec<String>,
    pub categories: Vec<String>,
}

/// The one activity of the application.
#[derive(Clone, Debug, PartialEq, Eq)]
pub struct Activity {
    pub config_changes: Option<String>,
    pub label: Option<String>,
    pub launch_mode: Option<String>,
    pub name: String,
    pub orientation: Option<String>,
    pub exported: Option<bool>,
    pub resizeable_activity: Option<bool>,
    pub meta_data: Vec<MetaData>,
    pub intent_filter: Vec<IntentFilter>,
}

#[derive(Clone, Debug, PartialEq, Eq)]
pub struct Application {
    pub debuggable: Option<bool>,
    pub theme: Option<String>,
    pub has_code: bool,
    pub icon: Option<String>,
    pub label: String,
    pub meta_data: Vec<MetaData>,
    pub activity: Activity,
}

/// The versions of the platform that the application runs on.
#[derive(Copy, Clone, Debug, PartialEq, Eq, Structural)]
pub struct Sdk {
    pub min_sdk_version: Option<u32>,
    pub target_sdk_version: Option<u32>,
    pub max_sdk_version: Option<u32>,
}

/// The manifest of the application.
#[derive(Clone, Debug, PartialEq, Eq)]
pub struct AndroidManifest {
    pub package: String,
    pub application: Application,
    pub version_name: Option<String>,
    pub version_code: Option<u32>,
    pub sdk: Sdk,
    pub uses_permission: Vec<Permission>,
}

/// What the package is assembled from.
#[derive(Clone, Debug, PartialEq, Eq)]
pub struct AndroidPackage {
    /// The directory in which the package is built.
    pub build_dir: String,
    pub apk_name: String,
    /// The directory of the resources.
    pub resources: String,
    pub manifest: AndroidManifest,
    /// Whether what the package holds is left uncompressed.
    pub disable_aapt_compression: bool,
    pub target: AndroidTarget,
    /// The libraries to put in, each with the libraries that it needs.
    pub libraries: Vec<String>,
    /// Where the libraries that a library needs are looked for.
    pub library_search_path: String,
}

/// The number that marks the packages of this builder among the packages of one
/// version.
pub const APK_ID: u8 = 1;

/// The code of a version: the mark and the three numbers of the version, one
/// byte each, from the highest byte down. A version with a number that does not
/// fit a byte has none.
pub open spec fn packed_code(major: u64, minor: u64, patch: u64, apk_id: u8) -> Option<u32> {
    if major > 255 || minor > 255 || patch > 255 {
        None
    } else {
        Some(
            ((apk_id as u32) << 24) | ((major as u32) << 16) | ((minor as u32) << 8) | (patch as u32),
        )
    }
}

/// Calls `ndk_build::cargo::VersionCode::from_semver` on `version` and
/// `VersionCode::to_code` on what it gives, with `apk_id`. For a version written
/// as three decimal numbers with dots between them, `from_semver` reads each
/// number as a byte and fails where one does not fit; `to_code` puts `apk_id`
/// and the three bytes into one number, from the highest byte down. Nothing is
/// claimed for a text of another form.
#[verifier::external_body]
fn semver_code(version: &str, apk_id: u8) -> (code: Option<u32>)
    ensures
        forall|major: u64, minor: u64, patch: u64|
            version@ == #[trigger] dotted(major, minor, patch) ==> code == packed_code(
                major,
                minor,
                patch,
                apk_id,
            ),
{
    match ndk_build::cargo::VersionCode::from_semver(version) {
        Ok(code) => Some(code.to_code(apk_id)),
        Err(_) => None,
    }
}

/// The directory of the resources of the package.
pub open spec fn resources_directory(options: BundleOptions) -> Seq<char> {
    joined(options.spec_bundle_location(), "res"@)
}

/// One step for each icon set: what it holds is copied into `directory`.
pub open spec fn icon_steps(icons: Seq<Seq<char>>, directory: Seq<char>) -> Seq<StepView> {
    icons.map_values(|icon: Seq<char>| StepView::CopyContents { from: icon, directory })
}

/// The target of the libraries of the package, for the one target that a
/// package can be made for.
pub open spec fn android_target(target: Target) -> Option<AndroidTarget> {
    if target == Target::AArch64LinuxAndroid {
        Some(AndroidTarget::Arm64V8a)
    } else {
        None
    }
}

/// The code of the version of a package.
pub open spec fn version_code_of(version: Version) -> Option<u32> {
    packed_code(version.major, version.minor, version.patch, APK_ID)
}

/// Whether a package can be made: the target is an Android target, and the
/// version has a code.
pub open spec fn can_package(options: BundleOptions) -> bool {
    android_target(options.options.target) is Some && version_code_of(options.options.version)
        is Some
}

/// The steps that lay out the package: the resources are made anew from the
/// icon sets, and the package is assembled.
pub open spec fn android_bundle(options: BundleOptions) -> Option<Seq<StepView>> {
    if can_package(options) {
        Some(
            (seq![
                StepView::RemoveDirectory { path: resources_directory(options) },
                StepView::CreateDirectories { path: resources_directory(options) },
            ] + icon_steps(views(options.options.icons@), resources_directory(options))).push(
                StepView::BuildPackage,
            ),
        )
    } else {
        None
    }
}

impl Permission {
    /// A permission without an upper bound on the platform's version.
    pub open spec fn grants(self, name: Seq<char>) -> bool {
        self.name@ == name && self.max_sdk_version is None
    }
}

impl Activity {
    /// The activity is the native activity of the platform, started from the
    /// launcher, and loads the library of the application.
    pub open spec fn is_native_activity_of(self, app_name: Seq<char>) -> bool {
        &&& opt_text(self.config_changes) == Some("orientation|keyboardHidden|screenSize"@)
        &&& opt_text(self.label) == Some(app_name)
        &&& self.launch_mode is None
        &&& self.name@ == "android.app.NativeActivity"@
        &&& self.orientation is None
        &&& self.exported is None
        &&& self.resizeable_activity is None
        &&& self.meta_data@.len() == 1
        &&& self.meta_data@[0].name@ == "android.app.lib_name"@
        &&& self.meta_data@[0].value@ == "vm_client_android"@
        &&& self.intent_filter@.len() == 1
        &&& views(self.intent_filter@[0].actions@) == seq!["android.intent.action.MAIN"@]
        &&& views(self.intent_filter@[0].categories@) == seq![
            "android.intent.category.LAUNCHER"@,
        ]
    }
}

impl Application {
    /// The application is full-screen, without code of its own, with the
    /// launcher icon where there are icons, and with the one native activity.
    pub open spec fn describes(self, app_name: Seq<char>, has_icons: bool) -> bool {
        &&& self.debuggable == Some(true)
        &&& opt_text(self.theme) == Some(
            "@android:style/Theme.DeviceDefault.NoActionBar.Fullscreen"@,
        )
        &&& !self.has_code
        &&& opt_text(self.icon) == if has_icons {
            Some("@mipmap/ic_launcher"@)
        } else {
            None
        }
        &&& self.label@ == app_name
        &&& self.meta_data@.len() == 0
        &&& self.activity.is_native_activity_of(app_name)
    }
}

impl AndroidManifest {
    /// The manifest carries the identifier as package, the version as name and
    /// as code, the name of the application as label, and the fixed parts: the
    /// versions of the platform and the two permissions for the network.
    pub open spec fn describes(self, options: BundleOptions) -> bool {
        &&& self.package@ == options.options.identifier@
        &&& opt_text(self.version_name) == Some(options.options.version.text())
        &&& self.version_code is Some
        &&& self.version_code == version_code_of(options.options.version)
        &&& self.sdk == (Sdk {
            min_sdk_version: Some(30u32),
            target_sdk_version: Some(30u32),
            max_sdk_version: Some(33u32),
        })
        &&& self.uses_permission@.len() == 2
        &&& self.uses_permission@[0].grants("android.permission.INTERNET"@)
        &&& self.uses_permission@[1].grants("android.permission.ACCESS_NETWORK_STATE"@)
        &&& self.application.describes(options.options.app_name@, options.options.icons@.len() > 0)
    }
}

impl AndroidPackage {
    /// The package is built where the bundle is put, under the name of the
    /// application, from the resources and the manifest, compressed only in a
    /// release, with the compiled libraries of the build.
    pub open spec fn describes(self, options: BundleOptions, inventory: Inventory) -> bool {
        &&& self.build_dir@ == options.spec_bundle_location()
        &&& self.apk_name@ == options.options.app_name@
        &&& self.resources@ == resources_directory(options)
        &&& self.manifest.describes(options)
        &&& self.disable_aapt_compression == !options.options.builder_flags.release
        &&& Some(self.target) == android_target(options.options.target)
        &&& views(self.libraries@) == spec_compiled_libraries(options, inventory)
        &&& self.library_search_path@ == options.spec_compilation_location()
    }
}

impl AndroidBundler {
    pub fn new() -> (bundler: Self)
        ensures
            bundler.spec_platform() == Platform::Android,
    {
        Self {  }
    }

    /// The code of `version` in a package: the mark of this builder and the
    /// three numbers of the version, one byte each. A version of which a
    /// number does not fit a byte has no code.
    pub fn version_code(version: &Version) -> (code: Result<u32, Error>)
        ensures
            match code {
                Ok(code) => version_code_of(*version) == Some(code),
                Err(error) => {
                    &&& version_code_of(*version) is None
                    &&& error matches Error::InvalidVersionCode { version: text }
                    &&& text@ == version.text()
                },
            },
    {
        let text = version.to_string();
        assert(text@ == dotted(version.major, version.minor, version.patch));
        match semver_code(text.as_str(), APK_ID) {
            Some(code) => Ok(code),
            None => Err(Error::InvalidVersionCode { version: text }),
        }
    }

    /// The target of the libraries of the package. Only one target is an
    /// Android target; every other target is refused.
    pub fn android_target(target: &Target) -> (abi: Result<AndroidTarget, Error>)
        ensures
            match abi {
                Ok(abi) => android_target(*target) == Some(abi),
                Err(error) => {
                    &&& android_target(*target) is None
                    &&& error matches Error::UnsupportedAndroidTarget { target: name }
                    &&& name@ == target.name()
                },
            },
    {
        match target {
            Target::AArch64LinuxAndroid => Ok(AndroidTarget::Arm64V8a),
            _ => Err(Error::UnsupportedAndroidTarget { target: target.to_string() }),
        }
    }

    fn activity(app_name: &str) -> (activity: Activity)
        ensures
            activity.is_native_activity_of(app_name@),
    {
        let mut meta_data: Vec<MetaData> = Vec::new();
        meta_data.push(
            MetaData { name: owned("android.app.lib_name"), value: owned("vm_client_android") },
        );
        let mut actions: Vec<String> = Vec::new();
        actions.push(owned("android.intent.action.MAIN"));
        let mut categories: Vec<String> = Vec::new();
        categories.push(owned("android.intent.category.LAUNCHER"));
        assert(views(actions@) =~= seq!["android.intent.action.MAIN"@]);
        assert(views(categories@) =~= seq!["android.intent.category.LAUNCHER"@]);
        let mut intent_filter: Vec<IntentFilter> = Vec::new();
        intent_filter.push(IntentFilter { actions, categories });
        Activity {
            config_changes: Some(owned("orientation|keyboardHidden|screenSize")),
            label: Some(owned(app_name)),
            launch_mode: None,
            name: owned("android.app.NativeActivity"),
            orientation: None,
            exported: None,
            resizeable_activity: None,
            meta_data,
            intent_filter,
        }
    }

    fn application(options: &BundleOptions) -> (application: Application)
        ensures
            application.describes(options.options.app_name@, options.options.icons@.len() > 0),
    {
        let icon = if options.icons().len() == 0 {
            None
        } else {
            Some(owned("@mipmap/ic_launcher"))
        };
        Application {
            debuggable: Some(true),
            theme: Some(owned("@android:style/Theme.DeviceDefault.NoActionBar.Fullscreen")),
            has_code: false,
            icon,
            label: owned(options.app_name()),
            meta_data: Vec::new(),
            activity: Self::activity(options.app_name()),
        }
    }

    /// The manifest of the application. There is none for a version without
    /// code.
    pub fn manifest(options: &BundleOptions) -> (manifest: Result<AndroidManifest, Error>)
        ensures
            match manifest {
                Ok(manifest) => manifest.describes(*options),
                Err(error) => version_code_of(options.options.version) is None && error
                    is InvalidVersionCode,
            },
    {
        let code = match Self::version_code(options.version()) {
            Ok(code) => code,
            Err(error) => {
                return Err(error);
            },
        };
        let mut uses_permission: Vec<Permission> = Vec::new();
        uses_permission.push(
            Permission { name: owned("android.permission.INTERNET"), max_sdk_version: None },
        );
        uses_permission.push(
            Permission {
                name: owned("android.permission.ACCESS_NETWORK_STATE"),
                max_sdk_version: None,
            },
        );
        Ok(
            AndroidManifest {
                package: owned(options.identifier()),
                application: Self::application(options),
                version_name: Some(options.version().to_string()),
                version_code: Some(code),
                sdk: Sdk {
                    min_sdk_version: Some(30),
                    target_sdk_version: Some(30),
                    max_sdk_version: Some(33),
                },
                uses_permission,
            },
        )
    }

    /// What the package is assembled from. A target that is no Android target
    /// is refused, and so is, for an Android target, a version without code.
    pub fn package(&self, options: &BundleOptions, inventory: &Inventory) -> (package: Result<
        AndroidPackage,
        Error,
    >)
        ensures
            match package {
                Ok(package) => can_package(*options) && package.describes(*options, *inventory),
                Err(error) => {
                    &&& !can_package(*options)
                    &&& android_target(options.options.target) is None
                        ==> error is UnsupportedAndroidTarget
                    &&& android_target(options.options.target) is Some ==> error
                        is InvalidVersionCode
                },
            },
    {
        let target = match Self::android_target(options.target()) {
            Ok(target) => target,
            Err(error) => {
                return Err(error);
            },
        };
        let manifest = match Self::manifest(options) {
            Ok(manifest) => manifest,
            Err(error) => {
                return Err(error);
            },
        };
        let location = options.bundle_location();
        Ok(
            AndroidPackage {
                resources: join(location.as_str(), "res"),
                build_dir: location,
                apk_name: owned(options.app_name()),
                manifest,
                disable_aapt_compression: !options.release(),
                target,
                libraries: compiled_libraries(options, inventory),
                library_search_path: crate::bundlers::compiled_libraries_directory(options),
            },
        )
    }

    /// The steps that lay out the package, together with what the last of
    /// them, `BuildPackage`, assembles: the package that `package` describes
    /// for the same options and the same inventory. A target that is no
    /// Android target is refused, and so is a version without code.
    pub fn bundle_package(&self, options: &BundleOptions, inventory: &Inventory) -> (outcome:
        Result<(Vec<Step>, AndroidPackage), Error>)
        ensures
            match outcome {
                Ok((steps, package)) => {
                    &&& android_bundle(*options) == Some(plan(steps@))
                    &&& package.describes(*options, *inventory)
                },
                Err(error) => {
                    &&& android_bundle(*options) is None
                    &&& android_target(options.options.target) is None
                        ==> error is UnsupportedAndroidTarget
                    &&& android_target(options.options.target) is Some ==> error
                        is InvalidVersionCode
                },
            },
    {
        let package = match self.package(options, inventory) {
            Ok(package) => package,
            Err(error) => {
                return Err(error);
            },
        };
        let resources = join(options.bundle_location().as_str(), "res");
        let mut steps = no_steps();
        push_step(&mut steps, remove_directory(resources.as_str()));
        push_step(&mut steps, create_directories(resources.as_str()));
        let icons = options.icons();
        let ghost first = plan(steps@);
        let mut i: usize = 0;
        assert(plan(steps@) =~= first + icon_steps(views(icons@.subrange(0, 0)), resources@));
        while i < icons.len()
            invariant
                i <= icons.len(),
                plan(steps@) == first + icon_steps(views(icons@.subrange(0, i as int)), resources@),
            decreases icons.len() - i,
        {
            push_step(&mut steps, copy_contents(icons[i].as_str(), resources.as_str()));
            proof {
                assert(icon_steps(views(icons@.subrange(0, i + 1)), resources@) =~= icon_steps(
                    views(icons@.subrange(0, i as int)),
                    resources@,
                ).push(StepView::CopyContents { from: icons@[i as int]@, directory: resources@ }));
                assert(plan(steps@) =~= first + icon_steps(
                    views(icons@.subrange(0, i + 1)),
                    resources@,
                ));
            }
            i = i + 1;
        }
        assert(icons@.subrange(0, icons.len() as int) =~= icons@);
        push_step(&mut steps, Step::BuildPackage);
        assert(first =~= seq![
            StepView::RemoveDirectory { path: resources_directory(*options) },
            StepView::CreateDirectories { path: resources_directory(*options) },
        ]);
        Ok((steps, package))
    }

}

impl Bundler for AndroidBundler {
    open spec fn spec_platform(&self) -> Platform {
        Platform::Android
    }

    open spec fn spec_executable_directory(&self, options: BundleOptions) -> Seq<char> {
        joined(joined(options.spec_bundle_location(), options.options.app_name@), "lib"@)
    }

    open spec fn spec_resources_directory(&self, options: BundleOptions) -> Seq<char> {
        joined(joined(options.spec_bundle_location(), options.options.app_name@), "assets"@)
    }

    open spec fn spec_pre_compile(
        &self,
        options: BundleOptions,
        executable: Executable,
        icon: Option<Seq<char>>,
    ) -> Option<Seq<StepView>> {
        Some(Seq::empty())
    }

    open spec fn spec_post_compile(&self, options: BundleOptions, executable: Executable) -> Seq<
        StepView,
    > {
        Seq::empty()
    }

    open spec fn spec_bundle(&self, options: BundleOptions, inventory: Inventory) -> Option<
        Seq<StepView>,
    > {
        android_bundle(options)
    }

    fn platform(&self) -> (platform: Platform) {
        Platform::Android
    }

    fn pre_compile(&self, options: &ExecutableOptions, icon: Option<&str>) -> (steps: Result<
        Vec<Step>,
        Error,
    >) {
        Ok(no_steps())
    }

    fn post_compile(
        &self,
        bundle_options: &BundleOptions,
        executable: &Executable,
        executable_options: &ExecutableOptions,
    ) -> (steps: Vec<Step>) {
        no_steps()
    }

    /// The package of an Android application: the directory of the resources
    /// is made anew, what each icon set holds is copied into it, and the
    /// package is assembled from what `package` describes. Nothing is done
    /// where no package can be made.
    fn bundle(&self, options: &BundleOptions, inventory: &Inventory) -> (steps: Result<
        Vec<Step>,
        Error,
    >)
        ensures
            steps matches Err(error) ==> (error is UnsupportedAndroidTarget || error
                is InvalidVersionCode),
    {
        match self.bundle_package(options, inventory) {
            Ok((steps, _)) => Ok(steps),
            Err(error) => Err(error),
        }
    }

    fn bundled_executable_directory(&self, options: &BundleOptions) -> (directory: String) {
        let app = join(options.bundle_location().as_str(), options.app_name());
        join(app.as_str(), "lib")
    }

    fn bundled_resources_directory(&self, options: &BundleOptions) -> (directory: String) {
        let app = join(options.bundle_location().as_str(), options.app_name());
        join(app.as_str(), "assets")
    }
}

} // verus!
