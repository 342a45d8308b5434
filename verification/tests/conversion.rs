use m2g::{maven_to_gradle, ConversionError};

#[test]
fn translate_single_dependency() {
    let input = String::from(
        r#"
            <dependency>
              <groupId>com.squareup.retrofit2</groupId>
              <artifactId>retrofit</artifactId>
              <version>34</version>
            </dependency>
            "#,
    );

    assert_eq!(
        maven_to_gradle(input).unwrap(),
        "implementation \"com.squareup.retrofit2:retrofit:34\""
    )
}

#[test]
fn translate_single_dependency_without_version() {
    let input = String::from(
        r#"
            <dependency>
              <groupId>com.squareup.retrofit2</groupId>
              <artifactId>retrofit</artifactId>
            </dependency>
            "#,
    );

    assert_eq!(
        maven_to_gradle(input).unwrap(),
        "implementation \"com.squareup.retrofit2:retrofit\""
    )
}

#[test]
fn translate_single_dependency_with_template_version() {
    let input = String::from(
        r#"
            <dependency>
              <groupId>com.squareup.retrofit2</groupId>
              <artifactId>retrofit</artifactId>
              <version>${version}</version>
            </dependency>
            "#,
    );

    assert_eq!(
        maven_to_gradle(input).unwrap(),
        "implementation \"com.squareup.retrofit2:retrofit:${version}\""
    )
}

#[test]
fn translate_multiple_dependencies() {
    let input = String::from(
        r#"
            <dependency>
                <groupId>com.dependencygroup</groupId>
                <artifactId>dependency1</artifactId>
                <version>1.0.0</version>
            </dependency>
            <!-- this is a comment -->
            <dependency>
                <groupId>com.dependencygroup</groupId>
                <artifactId>dependency2</artifactId>
                <version>0.1.2</version>
            </dependency>
            <dependency>
                <groupId>com.dependencygroup</groupId>
                <artifactId>dependency3</artifactId>
                <version>2.1.0</version>
            </dependency>
            "#,
    );

    assert_eq!(
        maven_to_gradle(input).unwrap(),
        "implementation \"com.dependencygroup:dependency1:1.0.0\"\nimplementation \"com.dependencygroup:dependency2:0.1.2\"\nimplementation \"com.dependencygroup:dependency3:2.1.0\""
    )
}

#[test]
fn single_line_input_with_version() {
    let input = String::from(
        "<dependency><groupId>com.squareup.retrofit2</groupId><artifactId>retrofit</artifactId><version>34</version></dependency>",
    );
    assert_eq!(
        maven_to_gradle(input),
        Ok(String::from("implementation \"com.squareup.retrofit2:retrofit:34\""))
    );
}

#[test]
fn comment_between_second_and_third_is_ignored() {
    let input = String::from(
        "<dependency><groupId>g</groupId><artifactId>a1</artifactId><version>1</version></dependency>\
         <dependency><groupId>g</groupId><artifactId>a2</artifactId></dependency>\
         <!-- not a dependency -->\
         <dependency><groupId>g</groupId><artifactId>a3</artifactId><version>3</version></dependency>",
    );
    assert_eq!(
        maven_to_gradle(input).unwrap(),
        "implementation \"g:a1:1\"\nimplementation \"g:a2\"\nimplementation \"g:a3:3\""
    );
}

#[test]
fn empty_input_gives_empty_output() {
    assert_eq!(maven_to_gradle(String::new()), Ok(String::new()));
}

#[test]
fn blank_input_gives_empty_output() {
    assert_eq!(maven_to_gradle(String::from("  \n \n")), Ok(String::new()));
}

#[test]
fn comments_alone_give_empty_output() {
    let input = String::from("<!-- one -->\n<!-- two -->");
    assert_eq!(maven_to_gradle(input), Ok(String::new()));
}

#[test]
fn children_in_any_order() {
    let input = String::from(
        "<dependency><version>2</version><artifactId>a</artifactId><groupId>g</groupId></dependency>",
    );
    assert_eq!(maven_to_gradle(input).unwrap(), "implementation \"g:a:2\"");
}

#[test]
fn other_children_are_passed_over() {
    let input = String::from(
        "<dependency><scope>test</scope><groupId>g</groupId><artifactId>a</artifactId></dependency>",
    );
    assert_eq!(maven_to_gradle(input).unwrap(), "implementation \"g:a\"");
}

#[test]
fn first_of_two_groups_counts() {
    let input = String::from(
        "<dependency><groupId>first</groupId><groupId>second</groupId><artifactId>a</artifactId></dependency>",
    );
    assert_eq!(maven_to_gradle(input).unwrap(), "implementation \"first:a\"");
}

#[test]
fn spaces_inside_text_are_removed() {
    let input = String::from(
        "<dependency><groupId>com. example</groupId><artifactId>my lib</artifactId><version>1. 0</version></dependency>",
    );
    assert_eq!(
        maven_to_gradle(input).unwrap(),
        "implementation \"com.example:mylib:1.0\""
    );
}

#[test]
fn empty_version_counts_as_absent() {
    let input = String::from(
        "<dependency><groupId>g</groupId><artifactId>a</artifactId><version></version></dependency>",
    );
    assert_eq!(maven_to_gradle(input).unwrap(), "implementation \"g:a\"");
}

#[test]
fn blank_version_counts_as_absent() {
    let input = String::from(
        "<dependency><groupId>g</groupId><artifactId>a</artifactId><version>  </version></dependency>",
    );
    assert_eq!(maven_to_gradle(input).unwrap(), "implementation \"g:a\"");
}

#[test]
fn unclosed_element_is_a_parse_error() {
    let r = maven_to_gradle(String::from("<dependency>"));
    assert!(matches!(r, Err(ConversionError::Parse(_))));
}

#[test]
fn parse_error_holds_what_the_parser_says() {
    assert_eq!(
        maven_to_gradle(String::from("<dependency>")),
        Err(ConversionError::Parse(String::from("expected 'dependency' tag, not 'p' at 1:16")))
    );
}

#[test]
fn mismatched_tags_are_a_parse_error() {
    let input = String::from("<dependency><groupId>g</artifactId></dependency>");
    assert!(matches!(maven_to_gradle(input), Err(ConversionError::Parse(_))));
}

#[test]
fn closing_the_wrapper_early_is_a_parse_error() {
    let r = maven_to_gradle(String::from("</p><p>"));
    assert!(matches!(r, Err(ConversionError::Parse(_))));
}

#[test]
fn parse_error_comes_before_any_other() {
    let r = maven_to_gradle(String::from("<plugin/><dependency>"));
    assert!(matches!(r, Err(ConversionError::Parse(_))));
}

#[test]
fn other_element_is_a_structure_error() {
    let input = String::from("<plugin><groupId>g</groupId><artifactId>a</artifactId></plugin>");
    assert_eq!(
        maven_to_gradle(input),
        Err(ConversionError::Structure(String::from("plugin")))
    );
}

#[test]
fn text_at_top_level_is_a_structure_error() {
    assert_eq!(
        maven_to_gradle(String::from("hello")),
        Err(ConversionError::Structure(String::new()))
    );
}

#[test]
fn tab_between_elements_is_a_structure_error() {
    let input = String::from(
        "\t<dependency><groupId>g</groupId><artifactId>a</artifactId></dependency>",
    );
    assert_eq!(
        maven_to_gradle(input),
        Err(ConversionError::Structure(String::new()))
    );
}

#[test]
fn missing_group_is_an_error() {
    let input = String::from("<dependency><artifactId>a</artifactId><version>1</version></dependency>");
    assert_eq!(
        maven_to_gradle(input),
        Err(ConversionError::MissingField(String::from("groupId")))
    );
}

#[test]
fn missing_artifact_is_an_error() {
    let input = String::from("<dependency><groupId>g</groupId><version>1</version></dependency>");
    assert_eq!(
        maven_to_gradle(input),
        Err(ConversionError::MissingField(String::from("artifactId")))
    );
}

#[test]
fn empty_group_is_an_error() {
    let input = String::from(
        "<dependency><groupId></groupId><artifactId>a</artifactId></dependency>",
    );
    assert_eq!(
        maven_to_gradle(input),
        Err(ConversionError::MissingField(String::from("groupId")))
    );
}

#[test]
fn empty_dependency_reports_the_group_first() {
    assert_eq!(
        maven_to_gradle(String::from("<dependency/>")),
        Err(ConversionError::MissingField(String::from("groupId")))
    );
}

#[test]
fn group_that_starts_with_an_element_has_no_text() {
    let input = String::from(
        "<dependency><groupId><b/>g</groupId><artifactId>a</artifactId></dependency>",
    );
    assert_eq!(
        maven_to_gradle(input),
        Err(ConversionError::MissingField(String::from("groupId")))
    );
}

#[test]
fn failure_after_good_dependencies_leaves_no_output() {
    let input = String::from(
        "<dependency><groupId>g</groupId><artifactId>a</artifactId></dependency>\
         <dependency><groupId>g</groupId></dependency>",
    );
    assert_eq!(
        maven_to_gradle(input),
        Err(ConversionError::MissingField(String::from("artifactId")))
    );
}

#[test]
fn first_failure_in_document_order_is_reported() {
    let first = String::from("<other/><dependency/>");
    assert_eq!(
        maven_to_gradle(first),
        Err(ConversionError::Structure(String::from("other")))
    );
    let second = String::from("<dependency/><other/>");
    assert_eq!(
        maven_to_gradle(second),
        Err(ConversionError::MissingField(String::from("groupId")))
    );
}

#[test]
fn comment_inside_a_dependency_is_no_field() {
    let input = String::from(
        "<dependency><!-- the group --><groupId>g</groupId><artifactId>a</artifactId></dependency>",
    );
    assert_eq!(maven_to_gradle(input).unwrap(), "implementation \"g:a\"");
}

#[test]
fn processing_instruction_at_top_level_is_a_structure_error() {
    assert_eq!(
        maven_to_gradle(String::from("<?target data?><dependency/>")),
        Err(ConversionError::Structure(String::new()))
    );
}

#[test]
fn character_reference_to_a_space_stays() {
    let input = String::from(
        "<dependency><groupId>a&#32;b</groupId><artifactId>x</artifactId></dependency>",
    );
    assert_eq!(maven_to_gradle(input).unwrap(), "implementation \"a b:x\"");
}

#[test]
fn entity_reference_is_resolved() {
    let input = String::from(
        "<dependency><groupId>a&amp;b</groupId><artifactId>x</artifactId></dependency>",
    );
    assert_eq!(maven_to_gradle(input).unwrap(), "implementation \"a&b:x\"");
}
