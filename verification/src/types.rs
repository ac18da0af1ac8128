//! The configuration record: what to download, what to update, and where
//! to put it.

use vstd::prelude::*;

verus! {

/// A subscription file to download.
#[derive(Debug)]
pub struct Subscription {
    /// Display name.
    pub name: String,
    /// Where to download it from.
    pub url: String,
    /// Where to write it.
    pub save_path: String,
}

/// The mathematical content of a `Subscription`.
pub ghost struct SubscriptionView {
    pub name: Seq<char>,
    pub url: Seq<char>,
    pub save_path: Seq<char>,
}

impl View for Subscription {
    type V = SubscriptionView;

    open spec fn view(&self) -> SubscriptionView {
        SubscriptionView { name: self.name@, url: self.url@, save_path: self.save_path@ }
    }
}

impl Clone for Subscription {
    fn clone(&self) -> (copy: Self)
        ensures
            copy@ == self@,
    {
        Subscription {
            name: self.name.clone(),
            url: self.url.clone(),
            save_path: self.save_path.clone(),
        }
    }
}

/// Update settings of the core executable, installed at one path.
#[derive(Debug)]
pub struct SingboxCoreUpdate {
    /// Whether the core is updated at all.
    pub enabled: bool,
    /// Whether prereleases count as candidates.
    pub check_prerelease: bool,
    /// Where the executable is installed.
    pub install_path: String,
}

/// The mathematical content of a `SingboxCoreUpdate`.
pub ghost struct SingboxCoreUpdateView {
    pub enabled: bool,
    pub check_prerelease: bool,
    pub install_path: Seq<char>,
}

impl View for SingboxCoreUpdate {
    type V = SingboxCoreUpdateView;

    open spec fn view(&self) -> SingboxCoreUpdateView {
        SingboxCoreUpdateView {
            enabled: self.enabled,
            check_prerelease: self.check_prerelease,
            install_path: self.install_path@,
        }
    }
}

impl Clone for SingboxCoreUpdate {
    fn clone(&self) -> (copy: Self)
        ensures
            copy@ == self@,
    {
        SingboxCoreUpdate {
            enabled: self.enabled,
            check_prerelease: self.check_prerelease,
            install_path: self.install_path.clone(),
        }
    }
}

/// The text of each string of `paths`, in order.
pub open spec fn texts(paths: Seq<String>) -> Seq<Seq<char>> {
    Seq::new(paths.len(), |i: int| paths[i]@)
}

/// A copy of `paths` with the same texts in the same order.
pub fn clone_paths(paths: &Vec<String>) -> (copy: Vec<String>)
    ensures
        texts(copy@) == texts(paths@),
{
    let mut copy: Vec<String> = Vec::new();
    let mut i: usize = 0;
    while i < paths.len()
        invariant
            i <= paths.len(),
            copy.len() == i,
            forall|j: int| 0 <= j < i ==> copy@[j]@ == paths@[j]@,
        decreases paths.len() - i,
    {
        copy.push(paths[i].clone());
        i += 1;
    }
    assert(texts(copy@) =~= texts(paths@));
    copy
}

/// Update settings of the alternative core executable, which may be
/// installed at several paths.
#[derive(Debug)]
pub struct MihomoCoreUpdate {
    /// Whether the core is updated at all.
    pub enabled: bool,
    /// Whether prereleases count as candidates.
    pub check_prerelease: bool,
    /// Where the executable is installed, in the order to install it.
    pub install_paths: Vec<String>,
}

/// The mathematical content of a `MihomoCoreUpdate`.
pub ghost struct MihomoCoreUpdateView {
    pub enabled: bool,
    pub check_prerelease: bool,
    pub install_paths: Seq<Seq<char>>,
}

impl View for MihomoCoreUpdate {
    type V = MihomoCoreUpdateView;

    open spec fn view(&self) -> MihomoCoreUpdateView {
        MihomoCoreUpdateView {
            enabled: self.enabled,
            check_prerelease: self.check_prerelease,
            install_paths: texts(self.install_paths@),
        }
    }
}

impl Clone for MihomoCoreUpdate {
    fn clone(&self) -> (copy: Self)
        ensures
            copy@ == self@,
    {
        MihomoCoreUpdate {
            enabled: self.enabled,
            check_prerelease: self.check_prerelease,
            install_paths: clone_paths(&self.install_paths),
        }
    }
}

/// The whole configuration.
#[derive(Debug)]
pub struct Config {
    /// The subscriptions to download, in order.
    pub subscriptions: Vec<Subscription>,
    /// Hours between two update runs; 0 means a single run.
    pub update_interval_hours: u64,
    /// Settings of the core executable.
    pub singbox_core_update: SingboxCoreUpdate,
    /// Settings of the alternative core executable, where it is configured.
    pub mihomo_core_update: Option<MihomoCoreUpdate>,
}

/// The mathematical content of a `Config`.
pub ghost struct ConfigView {
    pub subscriptions: Seq<SubscriptionView>,
    pub update_interval_hours: u64,
    pub singbox_core_update: SingboxCoreUpdateView,
    pub mihomo_core_update: Option<MihomoCoreUpdateView>,
}

/// The content of each subscription of `subs`, in order.
pub open spec fn subscription_views(subs: Seq<Subscription>) -> Seq<SubscriptionView> {
    Seq::new(subs.len(), |i: int| subs[i]@)
}

impl View for Config {
    type V = ConfigView;

    open spec fn view(&self) -> ConfigView {
        ConfigView {
            subscriptions: subscription_views(self.subscriptions@),
            update_interval_hours: self.update_interval_hours,
            singbox_core_update: self.singbox_core_update@,
            mihomo_core_update: match self.mihomo_core_update {
                Some(m) => Some(m@),
                None => None,
            },
        }
    }
}

/// A copy of `subs` with the same content in the same order.
pub fn clone_subscriptions(subs: &Vec<Subscription>) -> (copy: Vec<Subscription>)
    ensures
        subscription_views(copy@) == subscription_views(subs@),
{
    let mut copy: Vec<Subscription> = Vec::new();
    let mut i: usize = 0;
    while i < subs.len()
        invariant
            i <= subs.len(),
            copy.len() == i,
            forall|j: int| 0 <= j < i ==> copy@[j]@ == subs@[j]@,
        decreases subs.len() - i,
    {
        copy.push(subs[i].clone());
        i += 1;
    }
    assert(subscription_views(copy@) =~= subscription_views(subs@));
    copy
}

impl Clone for Config {
    fn clone(&self) -> (copy: Self)
        ensures
            copy@ == self@,
    {
        Config {
            subscriptions: clone_subscriptions(&self.subscriptions),
            update_interval_hours: self.update_interval_hours,
            singbox_core_update: self.singbox_core_update.clone(),
            mihomo_core_update: match &self.mihomo_core_update {
                Some(m) => Some(m.clone()),
                None => None,
            },
        }
    }
}

/// Where the core executable is installed unless configured otherwise.
pub open spec fn default_singbox_path(windows: bool) -> Seq<char> {
    if windows {
        "C:\\Program Files\\sing-box\\sing-box.exe"@
    } else {
        "/usr/local/bin/sing-box"@
    }
}

/// Where the alternative core executable is installed unless configured
/// otherwise.
pub open spec fn default_mihomo_path(windows: bool) -> Seq<char> {
    if windows {
        "C:\\Program Files\\mihomo\\mihomo.exe"@
    } else {
        "/usr/local/bin/mihomo"@
    }
}

/// The built-in configuration: one placeholder subscription, a run every
/// 24 hours, the core updated from stable releases, the alternative core
/// configured but switched off.
pub open spec fn default_config(windows: bool) -> ConfigView {
    ConfigView {
        subscriptions: seq![
            SubscriptionView {
                name: "默认订阅"@,
                url: "https://example.com/your-singbox-config.json"@,
                save_path: "./singbox_config.json"@,
            },
        ],
        update_interval_hours: 24,
        singbox_core_update: SingboxCoreUpdateView {
            enabled: true,
            check_prerelease: false,
            install_path: default_singbox_path(windows),
        },
        mihomo_core_update: Some(
            MihomoCoreUpdateView {
                enabled: false,
                check_prerelease: false,
                install_paths: seq![default_mihomo_path(windows)],
            },
        ),
    }
}

impl Config {
    /// The built-in configuration, used where no configuration file exists
    /// yet. The install paths are those of a Windows system where `windows`
    /// is set, and of a Unix-like system otherwise.
    pub fn default(windows: bool) -> (config: Config)
        ensures
            config@ == default_config(windows),
    {
        let singbox_install_path = if windows {
            "C:\\Program Files\\sing-box\\sing-box.exe".to_owned()
        } else {
            "/usr/local/bin/sing-box".to_owned()
        };
        let mihomo_install_path = if windows {
            "C:\\Program Files\\mihomo\\mihomo.exe".to_owned()
        } else {
            "/usr/local/bin/mihomo".to_owned()
        };
        let mut subscriptions: Vec<Subscription> = Vec::new();
        subscriptions.push(
            Subscription {
                name: "默认订阅".to_owned(),
                url: "https://example.com/your-singbox-config.json".to_owned(),
                save_path: "./singbox_config.json".to_owned(),
            },
        );
        let mut install_paths: Vec<String> = Vec::new();
        install_paths.push(mihomo_install_path);
        let config = Config {
            subscriptions,
            update_interval_hours: 24,
            singbox_core_update: SingboxCoreUpdate {
                enabled: true,
                check_prerelease: false,
                install_path: singbox_install_path,
            },
            mihomo_core_update: Some(
                MihomoCoreUpdate { enabled: false, check_prerelease: false, install_paths },
            ),
        };
        assert(config@.subscriptions =~= default_config(windows).subscriptions);
        assert(config@.mihomo_core_update->0.install_paths =~= seq![default_mihomo_path(windows)]);
        config
    }
}

/// Where a subscription is written unless a path is given.
pub open spec fn default_save_path() -> Seq<char> {
    "./singbox_config.json"@
}

/// `input` where something was entered, `current` where it was left empty.
pub open spec fn entered_or(input: Seq<char>, current: Seq<char>) -> Seq<char> {
    if input.len() == 0 {
        current
    } else {
        input
    }
}

/// `input` where something was entered, a copy of `current` where it was
/// left empty.
pub fn keep_or_replace(input: String, current: &String) -> (text: String)
    ensures
        text@ == entered_or(input@, current@),
{
    if input.as_str().is_empty() {
        current.clone()
    } else {
        input
    }
}

impl Config {
    /// Appends a subscription. An empty `save_path` stands for the default
    /// save path.
    pub fn add_subscription(&mut self, name: String, url: String, save_path: String)
        ensures
            final(self)@ == (ConfigView {
                subscriptions: old(self)@.subscriptions.push(
                    SubscriptionView {
                        name: name@,
                        url: url@,
                        save_path: entered_or(save_path@, default_save_path()),
                    },
                ),
                ..old(self)@
            }),
    {
        let save_path = if save_path.as_str().is_empty() {
            "./singbox_config.json".to_owned()
        } else {
            save_path
        };
        let ghost added = SubscriptionView { name: name@, url: url@, save_path: save_path@ };
        self.subscriptions.push(Subscription { name, url, save_path });
        assert(subscription_views(self.subscriptions@) =~= old(self)@.subscriptions.push(added));
    }

    /// Changes the subscription at `index`. Each empty input keeps what the
    /// subscription has.
    pub fn edit_subscription(&mut self, index: usize, name: String, url: String, save_path: String)
        requires
            index < old(self).subscriptions.len(),
        ensures
            final(self)@ == (ConfigView {
                subscriptions: old(self)@.subscriptions.update(
                    index as int,
                    SubscriptionView {
                        name: entered_or(name@, old(self)@.subscriptions[index as int].name),
                        url: entered_or(url@, old(self)@.subscriptions[index as int].url),
                        save_path: entered_or(
                            save_path@,
                            old(self)@.subscriptions[index as int].save_path,
                        ),
                    },
                ),
                ..old(self)@
            }),
    {
        let current = &self.subscriptions[index];
        let changed = Subscription {
            name: keep_or_replace(name, &current.name),
            url: keep_or_replace(url, &current.url),
            save_path: keep_or_replace(save_path, &current.save_path),
        };
        let ghost changed_view = changed@;
        self.subscriptions.set(index, changed);
        assert(subscription_views(self.subscriptions@) =~= old(self)@.subscriptions.update(
            index as int,
            changed_view,
        ));
    }

    /// Removes the subscription at `index`; those behind it move up.
    pub fn remove_subscription(&mut self, index: usize)
        requires
            index < old(self).subscriptions.len(),
        ensures
            final(self)@ == (ConfigView {
                subscriptions: old(self)@.subscriptions.remove(index as int),
                ..old(self)@
            }),
    {
        self.subscriptions.remove(index);
        assert(subscription_views(self.subscriptions@) =~= old(self)@.subscriptions.remove(
            index as int,
        ));
    }
}

impl SingboxCoreUpdate {
    /// The settings after a dialogue: the flags as answered, and the install
    /// path as entered, or as it was where nothing was entered.
    pub fn reconfigured(&self, enabled: bool, check_prerelease: bool, install_path: String) -> (settings:
        SingboxCoreUpdate)
        ensures
            settings@ == (SingboxCoreUpdateView {
                enabled,
                check_prerelease,
                install_path: entered_or(install_path@, self.install_path@),
            }),
    {
        SingboxCoreUpdate {
            enabled,
            check_prerelease,
            install_path: keep_or_replace(install_path, &self.install_path),
        }
    }
}

/// The install path of the alternative core where none is configured.
pub open spec fn fallback_mihomo_path() -> Seq<char> {
    "/usr/local/bin/mihomo"@
}

/// The install paths that a dialogue leaves: those given, or the fallback
/// path alone where none is left.
pub open spec fn settled_paths(paths: Seq<Seq<char>>) -> Seq<Seq<char>> {
    if paths.len() == 0 {
        seq![fallback_mihomo_path()]
    } else {
        paths
    }
}

impl MihomoCoreUpdate {
    /// The settings that a dialogue starts from where the alternative core
    /// is not configured: switched off, stable releases, the fallback path.
    pub fn unconfigured() -> (settings: MihomoCoreUpdate)
        ensures
            settings@ == (MihomoCoreUpdateView {
                enabled: false,
                check_prerelease: false,
                install_paths: seq![fallback_mihomo_path()],
            }),
    {
        let mut install_paths: Vec<String> = Vec::new();
        install_paths.push("/usr/local/bin/mihomo".to_owned());
        assert(texts(install_paths@) =~= seq![fallback_mihomo_path()]);
        MihomoCoreUpdate { enabled: false, check_prerelease: false, install_paths }
    }

    /// Appends an install path, unless nothing was entered. Says whether it
    /// was appended.
    pub fn add_install_path(&mut self, path: String) -> (added: bool)
        ensures
            added == (path@.len() > 0),
            final(self)@ == (MihomoCoreUpdateView {
                install_paths: if added {
                    old(self)@.install_paths.push(path@)
                } else {
                    old(self)@.install_paths
                },
                ..old(self)@
            }),
    {
        if path.as_str().is_empty() {
            false
        } else {
            let ghost entered = path@;
            self.install_paths.push(path);
            assert(texts(self.install_paths@) =~= old(self)@.install_paths.push(entered));
            true
        }
    }

    /// Removes the install path at `index`; those behind it move up.
    pub fn remove_install_path(&mut self, index: usize)
        requires
            index < old(self).install_paths.len(),
        ensures
            final(self)@ == (MihomoCoreUpdateView {
                install_paths: old(self)@.install_paths.remove(index as int),
                ..old(self)@
            }),
    {
        self.install_paths.remove(index);
        assert(texts(self.install_paths@) =~= old(self)@.install_paths.remove(index as int));
    }

    /// Makes sure that there is an install path: where none is left, the
    /// fallback path is put in. Says whether it was.
    pub fn settle_install_paths(&mut self) -> (filled: bool)
        ensures
            filled == (old(self)@.install_paths.len() == 0),
            final(self)@ == (MihomoCoreUpdateView {
                install_paths: settled_paths(old(self)@.install_paths),
                ..old(self)@
            }),
    {
        if self.install_paths.len() == 0 {
            self.install_paths.push("/usr/local/bin/mihomo".to_owned());
            assert(texts(self.install_paths@) =~= seq![fallback_mihomo_path()]);
            true
        } else {
            false
        }
    }
}

} // verus!
