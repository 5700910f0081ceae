use vstd::prelude::*;

mod apply;
mod assign;
mod environment;
mod errors;
mod pool;
mod schedule;
mod scrape;
mod text;

pub use apply::ApplyCall;
pub use apply::ApplyOutcome;
pub use apply::WallpaperPlan;
pub use apply::collect_outcomes;
pub use apply::file_uri;
pub use apply::lemma_single_photo_everywhere;
pub use apply::lemma_single_target_one_call;
pub use apply::overall_status;
pub use apply::plan_apply_calls;
pub use apply::plan_wallpaper_run;
pub use apply::plasma_wallpaper_script;
pub use assign::WallpaperAssignment;
pub use assign::build_assignments;
pub use environment::DesktopEnvironment;
pub use environment::ToolAvailability;
pub use environment::WallpaperMode;
pub use environment::count_from_probe;
pub use environment::detect_desktop_environment;
pub use environment::effective_mode;
pub use environment::lemma_effective_mode_downgrade;
pub use environment::monitor_count;
pub use environment::monitor_query_tool;
pub use environment::virtual_desktop_count;
pub use errors::PhotoError;
pub use pool::is_supported_photo;
pub use pool::select_pool;
pub use schedule::ScheduleChoice;
pub use schedule::ScheduleType;
pub use schedule::is_valid_interval;
pub use schedule::is_valid_time;
pub use schedule::parse_schedule;
pub use schedule::schedule_description;
pub use schedule::schedule_menu_choice;
pub use schedule::service_unit_text;
pub use schedule::set_command_args;
pub use schedule::timer_unit_text;
pub use scrape::CollectionDownloadResult;
pub use scrape::MIN_PHOTO_SIZE_BYTES;
pub use scrape::PhotoCollection;
pub use scrape::PhotoInfo;
pub use scrape::downloaded_file_candidates;
pub use scrape::extract_collection_name_from_url;
pub use scrape::extract_natgeo_image_urls;
pub use scrape::get_collection_photos;
pub use scrape::get_extension_from_content_type;
pub use scrape::is_collection_photo_filename;
pub use scrape::is_natgeo_url;
pub use scrape::photo_of_the_day_from_page;
pub use scrape::photo_size_acceptable;
pub use scrape::sanitize_title;
pub use scrape::title_from_url;
