//! The settings of the client.

pub mod keybinds;
pub mod theme;

use vstd::prelude::*;
use crate::health::EvictionPolicy;
use crate::transform::sizing::{corrected_cell_height, AttachmentSizing};

pub use keybinds::{KeyBind, Keybinds};
pub use theme::Theme;

verus! {

/// Everything the user can set.
#[derive(Debug, Clone)]
pub struct Config {
    pub general: GeneralSettings,
    pub images: ImageSettings,
    pub theme_name: String,
    pub keybinds: Keybinds,
    pub theme: Theme,
}

/// Settings that are not about images.
#[derive(Debug, Clone)]
pub struct GeneralSettings {
    pub username: String,
    pub file_manager: String,
    pub show_timestamps: bool,
    pub show_typing_indicators: bool,
    pub message_scroll_speed: usize,
    pub max_input_lines: usize,
}

/// Settings about images and their cache.
#[derive(Debug, Clone)]
pub struct ImageSettings {
    pub enabled: bool,
    pub render_avatars: bool,
    pub render_emojis: bool,
    pub render_stickers: bool,
    pub render_attachments: bool,
    pub render_server_icons: bool,
    /// Width of the smallest footprint of an attachment, in cells.
    pub min_image_width: u16,
    /// Height of the smallest footprint of an attachment, in cells.
    pub min_image_height: u16,
    /// Width of the largest footprint of an attachment, in cells.
    pub max_image_width: u16,
    /// Height of the largest footprint of an attachment, in cells.
    pub max_image_height: u16,
    /// How much taller than wide a terminal cell is, in hundredths.
    pub aspect_ratio_correction_percent: u16,
    pub auto_load_images: bool,
    pub cache_images_disk: bool,
    /// The size at which the cache counts as full, in mebibytes.
    pub max_cache_size_mb: usize,
    pub image_quality: ImageQuality,
    pub cache_auto_clear: CacheAutoClear,
    pub cache_clear_on_exit: bool,
    /// The usage, in percent, from which on the user is warned.
    pub cache_warn_threshold_percent: u8,
}

/// When the cache is cleared without being asked.
#[derive(Debug, Clone, Copy, PartialEq, Eq, Structural)]
pub enum CacheAutoClear {
    Never,
    WhenFull,
    Every30Minutes,
    EveryHour,
    EveryDay,
}

/// How carefully images are resampled.
#[derive(Debug, Clone, Copy, PartialEq, Eq, Structural)]
pub enum ImageQuality {
    Low,
    Medium,
    High,
}

/// The filters that images are resampled with.
#[derive(Debug, Clone, Copy, PartialEq, Eq, Structural)]
pub enum ResampleFilter {
    /// The nearest pixel.
    Nearest,
    /// Linear interpolation.
    Triangle,
    /// The Lanczos filter of window 3.
    Lanczos3,
}

/// The interval of a periodic setting, in seconds.
pub open spec fn interval_secs(setting: CacheAutoClear) -> Option<u64> {
    match setting {
        CacheAutoClear::Never => None,
        CacheAutoClear::WhenFull => None,
        CacheAutoClear::Every30Minutes => Some(1_800u64),
        CacheAutoClear::EveryHour => Some(3_600u64),
        CacheAutoClear::EveryDay => Some(86_400u64),
    }
}

/// The setting that follows a setting when the user steps through them.
pub open spec fn setting_after(setting: CacheAutoClear) -> CacheAutoClear {
    match setting {
        CacheAutoClear::Never => CacheAutoClear::WhenFull,
        CacheAutoClear::WhenFull => CacheAutoClear::Every30Minutes,
        CacheAutoClear::Every30Minutes => CacheAutoClear::EveryHour,
        CacheAutoClear::EveryHour => CacheAutoClear::EveryDay,
        CacheAutoClear::EveryDay => CacheAutoClear::Never,
    }
}

/// The name under which a setting is shown.
pub open spec fn setting_name(setting: CacheAutoClear) -> Seq<char> {
    match setting {
        CacheAutoClear::Never => "Never"@,
        CacheAutoClear::WhenFull => "When Full"@,
        CacheAutoClear::Every30Minutes => "Every 30 Minutes"@,
        CacheAutoClear::EveryHour => "Every Hour"@,
        CacheAutoClear::EveryDay => "Every Day"@,
    }
}

/// The eviction policy that a setting stands for.
pub open spec fn policy_of(setting: CacheAutoClear) -> EvictionPolicy {
    match setting {
        CacheAutoClear::Never => EvictionPolicy::Never,
        CacheAutoClear::WhenFull => EvictionPolicy::WhenFull,
        _ => EvictionPolicy::Periodic(interval_secs(setting)->0),
    }
}

/// Stepping through the settings comes back to where it began after five
/// steps, and not before.
pub proof fn lemma_settings_cycle(setting: CacheAutoClear)
    ensures
        setting_after(setting_after(setting_after(setting_after(setting_after(setting))))) == setting,
        setting_after(setting) != setting,
        setting_after(setting_after(setting)) != setting,
        setting_after(setting_after(setting_after(setting))) != setting,
        setting_after(setting_after(setting_after(setting_after(setting)))) != setting,
{
}

impl CacheAutoClear {
    /// The interval of a periodic setting, in seconds.
    pub fn duration_secs(&self) -> (secs: Option<u64>)
        ensures
            secs == interval_secs(*self),
    {
        match self {
            CacheAutoClear::Never => None,
            CacheAutoClear::WhenFull => None,
            CacheAutoClear::Every30Minutes => Some(30 * 60),
            CacheAutoClear::EveryHour => Some(60 * 60),
            CacheAutoClear::EveryDay => Some(24 * 60 * 60),
        }
    }

    /// The setting that follows this one when the user steps through them.
    pub fn next(&self) -> (following: CacheAutoClear)
        ensures
            following == setting_after(*self),
    {
        match self {
            CacheAutoClear::Never => CacheAutoClear::WhenFull,
            CacheAutoClear::WhenFull => CacheAutoClear::Every30Minutes,
            CacheAutoClear::Every30Minutes => CacheAutoClear::EveryHour,
            CacheAutoClear::EveryHour => CacheAutoClear::EveryDay,
            CacheAutoClear::EveryDay => CacheAutoClear::Never,
        }
    }

    /// The name under which the setting is shown.
    pub fn as_str(&self) -> (name: &'static str)
        ensures
            name@ == setting_name(*self),
    {
        match self {
            CacheAutoClear::Never => "Never",
            CacheAutoClear::WhenFull => "When Full",
            CacheAutoClear::Every30Minutes => "Every 30 Minutes",
            CacheAutoClear::EveryHour => "Every Hour",
            CacheAutoClear::EveryDay => "Every Day",
        }
    }

    /// The eviction policy that the setting stands for.
    pub fn policy(&self) -> (policy: EvictionPolicy)
        ensures
            policy == policy_of(*self),
    {
        match self.duration_secs() {
            Some(secs) => EvictionPolicy::Periodic(secs),
            None => match self {
                CacheAutoClear::WhenFull => EvictionPolicy::WhenFull,
                _ => EvictionPolicy::Never,
            },
        }
    }
}

/// The filter that a quality stands for.
pub open spec fn filter_of(quality: ImageQuality) -> ResampleFilter {
    match quality {
        ImageQuality::Low => ResampleFilter::Nearest,
        ImageQuality::Medium => ResampleFilter::Triangle,
        ImageQuality::High => ResampleFilter::Lanczos3,
    }
}

/// The width that follows a width when the user steps through the widths
/// offered for the largest footprint: ten more, and the smallest after the
/// largest or after any width that is not on offer.
pub open spec fn width_after(width: u16) -> u16 {
    if width == 10 || width == 20 || width == 30 || width == 40 {
        (width + 10) as u16
    } else {
        10u16
    }
}

/// The height that follows a height when the user steps through the heights
/// offered for the largest footprint: five more, and the smallest after the
/// largest or after any height that is not on offer.
pub open spec fn height_after(height: u16) -> u16 {
    if height == 5 || height == 10 || height == 15 || height == 20 {
        (height + 5) as u16
    } else {
        5u16
    }
}

impl ImageQuality {
    /// The filter that the quality stands for.
    pub fn to_filter_type(&self) -> (filter: ResampleFilter)
        ensures
            filter == filter_of(*self),
    {
        match self {
            ImageQuality::Low => ResampleFilter::Nearest,
            ImageQuality::Medium => ResampleFilter::Triangle,
            ImageQuality::High => ResampleFilter::Lanczos3,
        }
    }
}

impl Default for GeneralSettings {
    fn default() -> (settings: GeneralSettings)
        ensures
            settings.username@ == "You"@,
            settings.file_manager@ == "fzf"@,
            settings.show_timestamps,
            settings.show_typing_indicators,
            settings.message_scroll_speed == 1,
            settings.max_input_lines == 8,
    {
        GeneralSettings {
            username: "You".to_owned(),
            file_manager: "fzf".to_owned(),
            show_timestamps: true,
            show_typing_indicators: true,
            message_scroll_speed: 1,
            max_input_lines: 8,
        }
    }
}

impl ImageSettings {
    /// The settings that a new installation starts with. Whether images are
    /// shown at all depends on the terminal, so the caller says.
    pub fn defaults(enabled: bool) -> (settings: ImageSettings)
        ensures
            settings.enabled == enabled,
            settings.render_avatars,
            settings.render_emojis,
            settings.render_stickers,
            settings.render_attachments,
            settings.render_server_icons,
            settings.min_image_width == 20,
            settings.min_image_height == 5,
            settings.max_image_width == 40,
            settings.max_image_height == 20,
            settings.aspect_ratio_correction_percent == 200,
            settings.auto_load_images,
            settings.cache_images_disk,
            settings.max_cache_size_mb == 100,
            settings.image_quality == ImageQuality::High,
            settings.cache_auto_clear == CacheAutoClear::WhenFull,
            !settings.cache_clear_on_exit,
            settings.cache_warn_threshold_percent == 80,
    {
        ImageSettings {
            enabled,
            render_avatars: true,
            render_emojis: true,
            render_stickers: true,
            render_attachments: true,
            render_server_icons: true,
            min_image_width: 20,
            min_image_height: 5,
            max_image_width: 40,
            max_image_height: 20,
            aspect_ratio_correction_percent: 200,
            auto_load_images: true,
            cache_images_disk: true,
            max_cache_size_mb: 100,
            image_quality: ImageQuality::High,
            cache_auto_clear: CacheAutoClear::WhenFull,
            cache_clear_on_exit: false,
            cache_warn_threshold_percent: 80,
        }
    }

    /// The limits within which attachments are shown on a terminal whose
    /// cells are `cell_width` pixels wide.
    pub fn attachment_sizing(&self, cell_width: u16) -> (sizing: AttachmentSizing)
        ensures
            sizing.min_cols == self.min_image_width,
            sizing.min_rows == self.min_image_height,
            sizing.max_cols == self.max_image_width,
            sizing.max_rows == self.max_image_height,
            sizing.cell_width == cell_width,
            sizing.cell_height == corrected_cell_height(
                cell_width as nat,
                self.aspect_ratio_correction_percent as nat,
            ),
    {
        AttachmentSizing::new(
            (self.min_image_width, self.min_image_height),
            (self.max_image_width, self.max_image_height),
            cell_width,
            self.aspect_ratio_correction_percent,
        )
    }

    /// The next larger of the widths offered for the largest footprint, and
    /// the smallest after the largest.
    pub fn next_max_width(width: u16) -> (next: u16)
        ensures
            next == width_after(width),
    {
        if width == 10 {
            20
        } else if width == 20 {
            30
        } else if width == 30 {
            40
        } else if width == 40 {
            50
        } else {
            10
        }
    }

    /// The next larger of the heights offered for the largest footprint, and
    /// the smallest after the largest.
    pub fn next_max_height(height: u16) -> (next: u16)
        ensures
            next == height_after(height),
    {
        if height == 5 {
            10
        } else if height == 10 {
            15
        } else if height == 15 {
            20
        } else if height == 20 {
            25
        } else {
            5
        }
    }
}

impl Config {
    /// The settings that a new installation starts with.
    pub fn defaults(images_enabled: bool) -> (config: Config)
        ensures
            config.theme_name@ == "oxocarbon-dark"@,
            config.images.enabled == images_enabled,
            config.images.cache_warn_threshold_percent == 80,
            config.images.max_cache_size_mb == 100,
            config.images.cache_auto_clear == CacheAutoClear::WhenFull,
    {
        Config {
            general: GeneralSettings::default(),
            images: ImageSettings::defaults(images_enabled),
            theme_name: "oxocarbon-dark".to_owned(),
            keybinds: Keybinds::default(),
            theme: Theme::default(),
        }
    }
}

} // verus!
