use wallcycler::utils::{
    get_valid_image_paths_from_provided_dir, selected_file_is_valid_img, CyclerError, ImageCatalog,
};

fn listing(entries: &[&str]) -> Vec<String> {
    entries.iter().map(|e| e.to_string()).collect()
}

#[test]
fn empty_listing_fails_with_no_files_found() {
    let r = ImageCatalog::build(&Vec::new());
    assert!(matches!(r, Err(CyclerError::NoFilesFound)));
}

#[test]
fn only_non_image_files_fail_with_no_valid_image_files() {
    let r = ImageCatalog::build(&listing(&["a.txt", "b.png", "notes.md", "archive.tar.gz"]));
    assert!(matches!(r, Err(CyclerError::NoValidImageFiles)));
}

#[test]
fn mixed_listing_keeps_exactly_the_valid_images_in_order() {
    let r = ImageCatalog::build(&listing(&[
        "pics/a.jpg",
        "pics/b.txt",
        "pics/c.webp",
        "pics/d.jpeg",
        "pics/e",
    ]))
    .unwrap();
    assert_eq!(r.len(), 3);
    assert_eq!(r.get(0).as_str(), "pics/a.jpg");
    assert_eq!(r.get(1).as_str(), "pics/c.webp");
    assert_eq!(r.get(2).as_str(), "pics/d.jpeg");
}

#[test]
fn extension_matching_ignores_ascii_case() {
    assert!(selected_file_is_valid_img(&"photo.JPG".to_string()));
    assert!(selected_file_is_valid_img(&"photo.WebP".to_string()));
    assert!(selected_file_is_valid_img(&"photo.JpEg".to_string()));
}

#[test]
fn accepted_extensions_are_webp_jpg_jpeg_only() {
    assert!(selected_file_is_valid_img(&"a.webp".to_string()));
    assert!(selected_file_is_valid_img(&"a.jpg".to_string()));
    assert!(selected_file_is_valid_img(&"a.jpeg".to_string()));
    assert!(!selected_file_is_valid_img(&"a.png".to_string()));
    assert!(!selected_file_is_valid_img(&"a.gif".to_string()));
    assert!(!selected_file_is_valid_img(&"a.jpe".to_string()));
    assert!(!selected_file_is_valid_img(&"a.jpgg".to_string()));
}

#[test]
fn paths_without_a_usable_extension_are_rejected() {
    assert!(!selected_file_is_valid_img(&"noextension".to_string()));
    assert!(!selected_file_is_valid_img(&"".to_string()));
    assert!(!selected_file_is_valid_img(&".jpg".to_string()));
    assert!(!selected_file_is_valid_img(&"dir/.jpg".to_string()));
    assert!(!selected_file_is_valid_img(&"trailingdot.".to_string()));
    assert!(!selected_file_is_valid_img(&"dir.jpg/file".to_string()));
    assert!(!selected_file_is_valid_img(&"dir.jpg/".to_string()));
}

#[test]
fn extension_comes_from_the_last_dot() {
    assert!(selected_file_is_valid_img(&"archive.tar.jpg".to_string()));
    assert!(!selected_file_is_valid_img(&"image.jpg.bak".to_string()));
    assert!(selected_file_is_valid_img(&"x/.hidden.webp".to_string()));
}

#[test]
fn pick_random_returns_only_catalog_entries() {
    let paths = ["one.jpg", "two.jpg", "three.jpg"];
    let catalog = ImageCatalog::build(&listing(&paths)).unwrap();
    for _ in 0..100 {
        let p = catalog.pick_random().unwrap();
        assert!(paths.contains(&p.as_str()));
    }
}

#[test]
fn pick_random_covers_the_whole_catalog() {
    let paths = ["one.jpg", "two.jpg", "three.jpg"];
    let catalog = ImageCatalog::build(&listing(&paths)).unwrap();
    let mut seen = [false; 3];
    for _ in 0..1000 {
        let p = catalog.pick_random().unwrap();
        let i = paths.iter().position(|q| *q == p.as_str()).unwrap();
        seen[i] = true;
    }
    assert_eq!(seen, [true, true, true]);
}

#[test]
fn missing_directory_fails_with_directory_not_found() {
    let r = get_valid_image_paths_from_provided_dir(
        &"/surely/not/an/existing/backgrounds/directory".to_string(),
    );
    assert!(matches!(r, Err(CyclerError::DirectoryNotFound)));
}

#[test]
fn error_messages_name_each_failure() {
    assert_eq!(CyclerError::DirectoryNotFound.message(), "Directory not found");
    assert_eq!(
        CyclerError::NoFilesFound.message(),
        "No files found in the backgrounds directory"
    );
    assert_eq!(CyclerError::NoValidImageFiles.message(), "No valid image files");
    assert_eq!(
        CyclerError::EmptyCatalog.message(),
        "Can't choose an image from an empty catalog"
    );
    assert_eq!(
        CyclerError::BinaryNotFound { which: "swww".to_string() }.message(),
        "Backend binary not found on PATH"
    );
    assert_eq!(
        CyclerError::EngineInvocationFailed { which: "swww".to_string() }.message(),
        "Failed to issue the backend command"
    );
    assert_eq!(
        CyclerError::PathEncodingError.message(),
        "Can't convert the image path to text"
    );
    assert_eq!(
        CyclerError::EventSourceStartFailed.message(),
        "Failed to start the event listener"
    );
}
