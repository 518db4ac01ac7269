//! A verified core of a music-library scanner: classify audio files by
//! extension, extract tag metadata with deterministic fallback rules,
//! enumerate directory trees sequentially or in parallel, and encode
//! embedded cover art as data URIs.

pub mod classify;
pub mod cover;
pub mod extract;
pub mod path_model;
pub mod scan;
pub mod text;
pub mod track;

pub use classify::is_audio_file;
pub use classify::is_audio_path;
pub use cover::get_track_cover;
pub use cover::make_data_uri;
pub use cover::CoverMime;
pub use extract::extract_track;
pub use scan::scan_music_folder;
pub use track::resolve_track;
pub use track::ScanError;
pub use track::TagSnapshot;
pub use track::Track;
