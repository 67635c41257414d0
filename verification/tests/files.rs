use prompt_manager::files::{
    check_folder, check_parent, check_rename, default_file_name, default_folder_name,
    extension_for, file_name_for, folder_to_open, in_subfolder, FolderError,
};

#[test]
fn default_category_and_no_category_stay_in_the_root() {
    assert!(!in_subfolder(""));
    assert!(!in_subfolder("默认"));
    assert!(in_subfolder("work"));
    assert!(in_subfolder("默认2"));
}

#[test]
fn saved_file_keeps_its_extension_or_gets_md() {
    assert_eq!(extension_for(Some("txt".to_string())), "txt");
    assert_eq!(extension_for(None), "md");
    assert_eq!(file_name_for("Title", "md"), "Title.md");
    assert_eq!(file_name_for("提示", "txt"), "提示.txt");
    assert_eq!(file_name_for("", "md"), ".md");
}

#[test]
fn names_for_new_files_count_from_the_second_attempt() {
    assert_eq!(default_file_name(1), "新建提示词.md");
    assert_eq!(default_file_name(2), "新建提示词 2.md");
    assert_eq!(default_file_name(10), "新建提示词 10.md");
    assert_eq!(default_file_name(0), "新建提示词 0.md");
    assert_eq!(default_file_name(u32::MAX), "新建提示词 4294967295.md");
}

#[test]
fn names_for_new_folders_count_from_the_second_attempt() {
    assert_eq!(default_folder_name(1), "新建文件夹");
    assert_eq!(default_folder_name(2), "新建文件夹 2");
    assert_eq!(default_folder_name(123), "新建文件夹 123");
}

#[test]
fn folder_checks_report_the_first_failure() {
    assert_eq!(check_parent(true), Ok(()));
    assert_eq!(check_parent(false), Err(FolderError::ParentMissing));
    assert_eq!(check_folder(true, true), Ok(()));
    assert_eq!(check_folder(true, false), Err(FolderError::FolderMissing));
    assert_eq!(check_folder(false, false), Err(FolderError::FolderMissing));
    assert_eq!(check_rename(true, true, true, false), Ok(()));
    assert_eq!(check_rename(false, true, false, true), Err(FolderError::FolderMissing));
    assert_eq!(check_rename(true, false, true, false), Err(FolderError::FolderMissing));
    assert_eq!(check_rename(true, true, false, true), Err(FolderError::NoParent));
    assert_eq!(check_rename(true, true, true, true), Err(FolderError::TargetExists));
}

#[test]
fn file_manager_opens_the_folder_that_holds_a_file() {
    assert_eq!(folder_to_open("/p/a.md".to_string(), true, Some("/p".to_string())), "/p");
    assert_eq!(folder_to_open("/p".to_string(), false, Some("/".to_string())), "/p");
    assert_eq!(folder_to_open("a.md".to_string(), true, None), "a.md");
}
