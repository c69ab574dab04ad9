//! The parts of the API's resources that hold no fractional numbers: plain
//! records of optional strings, integers, flags and lists.
use std::collections::HashMap;
use vstd::prelude::*;

verus! {

/// Response message from a batch update.
#[derive(Default, Clone, Debug)]
pub struct BatchUpdatePresentationResponse {
    /// The presentation the updates were applied to.
    pub presentation_id: Option<String>,
    /// The reply of the updates. This maps 1:1 with the updates, although replies to some requests may be empty.
    pub replies: Option<Vec<Response>>,
    /// The updated write control after applying the request.
    pub write_control: Option<WriteControl>,
}

/// The result of creating an image.
#[derive(Default, Clone, Debug)]
pub struct CreateImageResponse {
    /// The object ID of the created image.
    pub object_id: Option<String>,
}

/// The result of creating a line.
#[derive(Default, Clone, Debug)]
pub struct CreateLineResponse {
    /// The object ID of the created line.
    pub object_id: Option<String>,
}

/// Creates bullets for all of the paragraphs that overlap with the given text index range. The nesting level of each paragraph will be determined by counting leading tabs in front of each paragraph. To avoid excess space between the bullet and the corresponding paragraph, these leading tabs are removed by this request. This may change the indices of parts of the text. If the paragraph immediately before paragraphs being updated is in a list with a matching preset, the paragraphs being updated are added to that preceding list.
#[derive(Default, Clone, Debug)]
pub struct CreateParagraphBulletsRequest {
    /// The kinds of bullet glyphs to be used. Defaults to the `BULLET_DISC_CIRCLE_SQUARE` preset.
    pub bullet_preset: Option<String>,
    /// The optional table cell location if the text to be modified is in a table cell. If present, the object_id must refer to a table.
    pub cell_location: Option<TableCellLocation>,
    /// The object ID of the shape or table containing the text to add bullets to.
    pub object_id: Option<String>,
    /// The range of text to apply the bullet presets to, based on TextElement indexes.
    pub text_range: Option<Range>,
}

/// The result of creating a shape.
#[derive(Default, Clone, Debug)]
pub struct CreateShapeResponse {
    /// The object ID of the created shape.
    pub object_id: Option<String>,
}

/// The result of creating an embedded Google Sheets chart.
#[derive(Default, Clone, Debug)]
pub struct CreateSheetsChartResponse {
    /// The object ID of the created chart.
    pub object_id: Option<String>,
}

/// Creates a slide.
#[derive(Default, Clone, Debug)]
pub struct CreateSlideRequest {
    /// The optional zero-based index indicating where to insert the slides. If you don't specify an index, the slide is created at the end.
    pub insertion_index: Option<i32>,
    /// A user-supplied object ID. If you specify an ID, it must be unique among all pages and page elements in the presentation. The ID must start with an alphanumeric character or an underscore (matches regex `[a-zA-Z0-9_]`); remaining characters may include those as well as a hyphen or colon (matches regex `[a-zA-Z0-9_-:]`). The ID length must be between 5 and 50 characters, inclusive. If you don't specify an ID, a unique one is generated.
    pub object_id: Option<String>,
    /// An optional list of object ID mappings from the placeholder(s) on the layout to the placeholders that are created on the slide from the specified layout. Can only be used when `slide_layout_reference` is specified.
    pub placeholder_id_mappings: Option<Vec<LayoutPlaceholderIdMapping>>,
    /// Layout reference of the slide to be inserted, based on the *current master*, which is one of the following: - The master of the previous slide index. - The master of the first slide, if the insertion_index is zero. - The first master in the presentation, if there are no slides. If the LayoutReference is not found in the current master, a 400 bad request error is returned. If you don't specify a layout reference, the slide uses the predefined `BLANK` layout.
    pub slide_layout_reference: Option<LayoutReference>,
}

/// The result of creating a slide.
#[derive(Default, Clone, Debug)]
pub struct CreateSlideResponse {
    /// The object ID of the created slide.
    pub object_id: Option<String>,
}

/// The result of creating a table.
#[derive(Default, Clone, Debug)]
pub struct CreateTableResponse {
    /// The object ID of the created table.
    pub object_id: Option<String>,
}

/// The result of creating a video.
#[derive(Default, Clone, Debug)]
pub struct CreateVideoResponse {
    /// The object ID of the created video.
    pub object_id: Option<String>,
}

/// Deletes an object, either pages or page elements, from the presentation.
#[derive(Default, Clone, Debug)]
pub struct DeleteObjectRequest {
    /// The object ID of the page or page element to delete. If after a delete operation a group contains only 1 or no page elements, the group is also deleted. If a placeholder is deleted on a layout, any empty inheriting placeholders are also deleted.
    pub object_id: Option<String>,
}

/// Deletes bullets from all of the paragraphs that overlap with the given text index range. The nesting level of each paragraph will be visually preserved by adding indent to the start of the corresponding paragraph.
#[derive(Default, Clone, Debug)]
pub struct DeleteParagraphBulletsRequest {
    /// The optional table cell location if the text to be modified is in a table cell. If present, the object_id must refer to a table.
    pub cell_location: Option<TableCellLocation>,
    /// The object ID of the shape or table containing the text to delete bullets from.
    pub object_id: Option<String>,
    /// The range of text to delete bullets from, based on TextElement indexes.
    pub text_range: Option<Range>,
}

/// Deletes a column from a table.
#[derive(Default, Clone, Debug)]
pub struct DeleteTableColumnRequest {
    /// The reference table cell location from which a column will be deleted. The column this cell spans will be deleted. If this is a merged cell, multiple columns will be deleted. If no columns remain in the table after this deletion, the whole table is deleted.
    pub cell_location: Option<TableCellLocation>,
    /// The table to delete columns from.
    pub table_object_id: Option<String>,
}

/// Deletes a row from a table.
#[derive(Default, Clone, Debug)]
pub struct DeleteTableRowRequest {
    /// The reference table cell location from which a row will be deleted. The row this cell spans will be deleted. If this is a merged cell, multiple rows will be deleted. If no rows remain in the table after this deletion, the whole table is deleted.
    pub cell_location: Option<TableCellLocation>,
    /// The table to delete rows from.
    pub table_object_id: Option<String>,
}

/// Deletes text from a shape or a table cell.
#[derive(Default, Clone, Debug)]
pub struct DeleteTextRequest {
    /// The optional table cell location if the text is to be deleted from a table cell. If present, the object_id must refer to a table.
    pub cell_location: Option<TableCellLocation>,
    /// The object ID of the shape or table from which the text will be deleted.
    pub object_id: Option<String>,
    /// The range of text to delete, based on TextElement indexes. There is always an implicit newline character at the end of a shape's or table cell's text that cannot be deleted. `Range.Type.ALL` will use the correct bounds, but care must be taken when specifying explicit bounds for range types `FROM_START_INDEX` and `FIXED_RANGE`. For example, if the text is "ABC", followed by an implicit newline, then the maximum value is 2 for `text_range.start_index` and 3 for `text_range.end_index`. Deleting text that crosses a paragraph boundary may result in changes to paragraph styles and lists as the two paragraphs are merged. Ranges that include only one code unit of a surrogate pair are expanded to include both code units.
    pub text_range: Option<Range>,
}

/// Duplicates a slide or page element. When duplicating a slide, the duplicate slide will be created immediately following the specified slide. When duplicating a page element, the duplicate will be placed on the same page at the same position as the original.
#[derive(Default, Clone, Debug)]
pub struct DuplicateObjectRequest {
    /// The ID of the object to duplicate.
    pub object_id: Option<String>,
    /// The object being duplicated may contain other objects, for example when duplicating a slide or a group page element. This map defines how the IDs of duplicated objects are generated: the keys are the IDs of the original objects and its values are the IDs that will be assigned to the corresponding duplicate object. The ID of the source object's duplicate may be specified in this map as well, using the same value of the `object_id` field as a key and the newly desired ID as the value. All keys must correspond to existing IDs in the presentation. All values must be unique in the presentation and must start with an alphanumeric character or an underscore (matches regex `[a-zA-Z0-9_]`); remaining characters may include those as well as a hyphen or colon (matches regex `[a-zA-Z0-9_-:]`). The length of the new ID must not be less than 5 or greater than 50. If any IDs of source objects are omitted from the map, a new random ID will be assigned. If the map is empty or unset, all duplicate objects will receive a new random ID.
    pub object_ids: Option<HashMap<String, String>>,
}

/// The response of duplicating an object.
#[derive(Default, Clone, Debug)]
pub struct DuplicateObjectResponse {
    /// The ID of the new duplicate object.
    pub object_id: Option<String>,
}

/// Groups objects to create an object group. For example, groups PageElements to create a Group on the same page as all the children.
#[derive(Default, Clone, Debug)]
pub struct GroupObjectsRequest {
    /// The object IDs of the objects to group. Only page elements can be grouped. There should be at least two page elements on the same page that are not already in another group. Some page elements, such as videos, tables and placeholders cannot be grouped.
    pub children_object_ids: Option<Vec<String>>,
    /// A user-supplied object ID for the group to be created. If you specify an ID, it must be unique among all pages and page elements in the presentation. The ID must start with an alphanumeric character or an underscore (matches regex `[a-zA-Z0-9_]`); remaining characters may include those as well as a hyphen or colon (matches regex `[a-zA-Z0-9_-:]`). The length of the ID must not be less than 5 or greater than 50. If you don't specify an ID, a unique one is generated.
    pub group_object_id: Option<String>,
}

/// The result of grouping objects.
#[derive(Default, Clone, Debug)]
pub struct GroupObjectsResponse {
    /// The object ID of the created group.
    pub object_id: Option<String>,
}

/// Inserts columns into a table. Other columns in the table will be resized to fit the new column.
#[derive(Default, Clone, Debug)]
pub struct InsertTableColumnsRequest {
    /// The reference table cell location from which columns will be inserted. A new column will be inserted to the left (or right) of the column where the reference cell is. If the reference cell is a merged cell, a new column will be inserted to the left (or right) of the merged cell.
    pub cell_location: Option<TableCellLocation>,
    /// Whether to insert new columns to the right of the reference cell location. - `True`: insert to the right. - `False`: insert to the left.
    pub insert_right: Option<bool>,
    /// The number of columns to be inserted. Maximum 20 per request.
    pub number: Option<i32>,
    /// The table to insert columns into.
    pub table_object_id: Option<String>,
}

/// Inserts rows into a table.
#[derive(Default, Clone, Debug)]
pub struct InsertTableRowsRequest {
    /// The reference table cell location from which rows will be inserted. A new row will be inserted above (or below) the row where the reference cell is. If the reference cell is a merged cell, a new row will be inserted above (or below) the merged cell.
    pub cell_location: Option<TableCellLocation>,
    /// Whether to insert new rows below the reference cell location. - `True`: insert below the cell. - `False`: insert above the cell.
    pub insert_below: Option<bool>,
    /// The number of rows to be inserted. Maximum 20 per request.
    pub number: Option<i32>,
    /// The table to insert rows into.
    pub table_object_id: Option<String>,
}

/// Inserts text into a shape or a table cell.
#[derive(Default, Clone, Debug)]
pub struct InsertTextRequest {
    /// The optional table cell location if the text is to be inserted into a table cell. If present, the object_id must refer to a table.
    pub cell_location: Option<TableCellLocation>,
    /// The index where the text will be inserted, in Unicode code units, based on TextElement indexes. The index is zero-based and is computed from the start of the string. The index may be adjusted to prevent insertions inside Unicode grapheme clusters. In these cases, the text will be inserted immediately after the grapheme cluster.
    pub insertion_index: Option<i32>,
    /// The object ID of the shape or table where the text will be inserted.
    pub object_id: Option<String>,
    /// The text to be inserted. Inserting a newline character will implicitly create a new ParagraphMarker at that index. The paragraph style of the new paragraph will be copied from the paragraph at the current insertion index, including lists and bullets. Text styles for inserted text will be determined automatically, generally preserving the styling of neighboring text. In most cases, the text will be added to the TextRun that exists at the insertion index. Some control characters (U+0000-U+0008, U+000C-U+001F) and characters from the Unicode Basic Multilingual Plane Private Use Area (U+E000-U+F8FF) will be stripped out of the inserted text.
    pub text: Option<String>,
}

/// The user-specified ID mapping for a placeholder that will be created on a slide from a specified layout.
#[derive(Default, Clone, Debug)]
pub struct LayoutPlaceholderIdMapping {
    /// The placeholder on a layout that will be applied to a slide. Only type and index are needed. For example, a predefined `TITLE_AND_BODY` layout may usually have a TITLE placeholder with index 0 and a BODY placeholder with index 0.
    pub layout_placeholder: Option<Placeholder>,
    /// The object ID of the placeholder on a layout that will be applied to a slide.
    pub layout_placeholder_object_id: Option<String>,
    /// A user-supplied object ID for the placeholder identified above that to be created onto a slide. If you specify an ID, it must be unique among all pages and page elements in the presentation. The ID must start with an alphanumeric character or an underscore (matches regex `[a-zA-Z0-9_]`); remaining characters may include those as well as a hyphen or colon (matches regex `[a-zA-Z0-9_-:]`). The length of the ID must not be less than 5 or greater than 50. If you don't specify an ID, a unique one is generated.
    pub object_id: Option<String>,
}

/// The properties of Page are only relevant for pages with page_type LAYOUT.
#[derive(Default, Clone, Debug)]
pub struct LayoutProperties {
    /// The human-readable name of the layout.
    pub display_name: Option<String>,
    /// The object ID of the master that this layout is based on.
    pub master_object_id: Option<String>,
    /// The name of the layout.
    pub name: Option<String>,
}

/// Slide layout reference. This may reference either: - A predefined layout - One of the layouts in the presentation.
#[derive(Default, Clone, Debug)]
pub struct LayoutReference {
    /// Layout ID: the object ID of one of the layouts in the presentation.
    pub layout_id: Option<String>,
    /// Predefined layout.
    pub predefined_layout: Option<String>,
}

/// The properties for one end of a Line connection.
#[derive(Default, Clone, Debug)]
pub struct LineConnection {
    /// The object ID of the connected page element. Some page elements, such as groups, tables, and lines do not have connection sites and therefore cannot be connected to a connector line.
    pub connected_object_id: Option<String>,
    /// The index of the connection site on the connected page element. In most cases, it corresponds to the predefined connection site index from the ECMA-376 standard. More information on those connection sites can be found in both the description of the "cxn" attribute in section 20.1.9.9 and "Annex H. Example Predefined DrawingML Shape and Text Geometries" of "Office Open XML File Formats - Fundamentals and Markup Language Reference", part 1 of [ECMA-376 5th edition](https://ecma-international.org/publications-and-standards/standards/ecma-376/). The position of each connection site can also be viewed from Slides editor.
    pub connection_site_index: Option<i32>,
}

/// A hypertext link.
#[derive(Default, Clone, Debug)]
pub struct Link {
    /// If set, indicates this is a link to the specific page in this presentation with this ID. A page with this ID may not exist.
    pub page_object_id: Option<String>,
    /// If set, indicates this is a link to a slide in this presentation, addressed by its position.
    pub relative_link: Option<String>,
    /// If set, indicates this is a link to the slide at this zero-based index in the presentation. There may not be a slide at this index.
    pub slide_index: Option<i32>,
    /// If set, indicates this is a link to the external web page at this URL.
    pub url: Option<String>,
}

/// The properties of Page that are only relevant for pages with page_type MASTER.
#[derive(Default, Clone, Debug)]
pub struct MasterProperties {
    /// The human-readable name of the master.
    pub display_name: Option<String>,
}

/// Merges cells in a Table.
#[derive(Default, Clone, Debug)]
pub struct MergeTableCellsRequest {
    /// The object ID of the table.
    pub object_id: Option<String>,
    /// The table range specifying which cells of the table to merge. Any text in the cells being merged will be concatenated and stored in the upper-left ("head") cell of the range. If the range is non-rectangular (which can occur in some cases where the range covers cells that are already merged), a 400 bad request error is returned.
    pub table_range: Option<TableRange>,
}

/// The properties of Page that are only relevant for pages with page_type NOTES.
#[derive(Default, Clone, Debug)]
pub struct NotesProperties {
    /// The object ID of the shape on this notes page that contains the speaker notes for the corresponding slide. The actual shape may not always exist on the notes page. Inserting text using this object ID will automatically create the shape. In this case, the actual shape may have different object ID. The `GetPresentation` or `GetPage` action will always return the latest object ID.
    pub speaker_notes_object_id: Option<String>,
}

/// The placeholder information that uniquely identifies a placeholder shape.
#[derive(Default, Clone, Debug)]
pub struct Placeholder {
    /// The index of the placeholder. If the same placeholder types are present in the same page, they would have different index values.
    pub index: Option<i32>,
    /// The object ID of this shape's parent placeholder. If unset, the parent placeholder shape does not exist, so the shape does not inherit properties from any other shape.
    pub parent_object_id: Option<String>,
    /// The type of the placeholder.
    pub type_: Option<String>,
}

/// Specifies a contiguous range of an indexed collection, such as characters in text.
#[derive(Default, Clone, Debug)]
pub struct Range {
    /// The optional zero-based index of the end of the collection. Required for `FIXED_RANGE` ranges.
    pub end_index: Option<i32>,
    /// The optional zero-based index of the beginning of the collection. Required for `FIXED_RANGE` and `FROM_START_INDEX` ranges.
    pub start_index: Option<i32>,
    /// The type of range.
    pub type_: Option<String>,
}

/// Refreshes an embedded Google Sheets chart by replacing it with the latest version of the chart from Google Sheets. NOTE: Refreshing charts requires at least one of the spreadsheets.readonly, spreadsheets, drive.readonly, or drive OAuth scopes.
#[derive(Default, Clone, Debug)]
pub struct RefreshSheetsChartRequest {
    /// The object ID of the chart to refresh.
    pub object_id: Option<String>,
}

/// Replaces all shapes that match the given criteria with the provided image. The images replacing the shapes are rectangular after being inserted into the presentation and do not take on the forms of the shapes.
#[derive(Default, Clone, Debug)]
pub struct ReplaceAllShapesWithImageRequest {
    /// If set, this request will replace all of the shapes that contain the given text.
    pub contains_text: Option<SubstringMatchCriteria>,
    /// The image replace method. If you specify both a `replace_method` and an `image_replace_method`, the `image_replace_method` takes precedence. If you do not specify a value for `image_replace_method`, but specify a value for `replace_method`, then the specified `replace_method` value is used. If you do not specify either, then CENTER_INSIDE is used.
    pub image_replace_method: Option<String>,
    /// The image URL. The image is fetched once at insertion time and a copy is stored for display inside the presentation. Images must be less than 50MB in size, cannot exceed 25 megapixels, and must be in one of PNG, JPEG, or GIF format. The provided URL can be at most 2 kB in length. The URL itself is saved with the image, and exposed via the Image.source_url field.
    pub image_url: Option<String>,
    /// If non-empty, limits the matches to page elements only on the given pages. Returns a 400 bad request error if given the page object ID of a notes page or a notes master, or if a page with that object ID doesn't exist in the presentation.
    pub page_object_ids: Option<Vec<String>>,
    /// The replace method. *Deprecated*: use `image_replace_method` instead. If you specify both a `replace_method` and an `image_replace_method`, the `image_replace_method` takes precedence.
    pub replace_method: Option<String>,
}

/// The result of replacing shapes with an image.
#[derive(Default, Clone, Debug)]
pub struct ReplaceAllShapesWithImageResponse {
    /// The number of shapes replaced with images.
    pub occurrences_changed: Option<i32>,
}

/// Replaces all shapes that match the given criteria with the provided Google Sheets chart. The chart will be scaled and centered to fit within the bounds of the original shape. NOTE: Replacing shapes with a chart requires at least one of the spreadsheets.readonly, spreadsheets, drive.readonly, or drive OAuth scopes.
#[derive(Default, Clone, Debug)]
pub struct ReplaceAllShapesWithSheetsChartRequest {
    /// The ID of the specific chart in the Google Sheets spreadsheet.
    pub chart_id: Option<i32>,
    /// The criteria that the shapes must match in order to be replaced. The request will replace all of the shapes that contain the given text.
    pub contains_text: Option<SubstringMatchCriteria>,
    /// The mode with which the chart is linked to the source spreadsheet. When not specified, the chart will be an image that is not linked.
    pub linking_mode: Option<String>,
    /// If non-empty, limits the matches to page elements only on the given pages. Returns a 400 bad request error if given the page object ID of a notes page or a notes master, or if a page with that object ID doesn't exist in the presentation.
    pub page_object_ids: Option<Vec<String>>,
    /// The ID of the Google Sheets spreadsheet that contains the chart.
    pub spreadsheet_id: Option<String>,
}

/// The result of replacing shapes with a Google Sheets chart.
#[derive(Default, Clone, Debug)]
pub struct ReplaceAllShapesWithSheetsChartResponse {
    /// The number of shapes replaced with charts.
    pub occurrences_changed: Option<i32>,
}

/// Replaces all instances of text matching a criteria with replace text.
#[derive(Default, Clone, Debug)]
pub struct ReplaceAllTextRequest {
    /// Finds text in a shape matching this substring.
    pub contains_text: Option<SubstringMatchCriteria>,
    /// If non-empty, limits the matches to page elements only on the given pages. Returns a 400 bad request error if given the page object ID of a notes master, or if a page with that object ID doesn't exist in the presentation.
    pub page_object_ids: Option<Vec<String>>,
    /// The text that will replace the matched text.
    pub replace_text: Option<String>,
}

/// The result of replacing text.
#[derive(Default, Clone, Debug)]
pub struct ReplaceAllTextResponse {
    /// The number of occurrences changed by replacing all text.
    pub occurrences_changed: Option<i32>,
}

/// Replaces an existing image with a new image. Replacing an image removes some image effects from the existing image.
#[derive(Default, Clone, Debug)]
pub struct ReplaceImageRequest {
    /// The ID of the existing image that will be replaced. The ID can be retrieved from the response of a get request.
    pub image_object_id: Option<String>,
    /// The replacement method.
    pub image_replace_method: Option<String>,
    /// The image URL. The image is fetched once at insertion time and a copy is stored for display inside the presentation. Images must be less than 50MB, cannot exceed 25 megapixels, and must be in PNG, JPEG, or GIF format. The provided URL can't surpass 2 KB in length. The URL is saved with the image, and exposed through the Image.source_url field.
    pub url: Option<String>,
}

/// Reroutes a line such that it's connected at the two closest connection sites on the connected page elements.
#[derive(Default, Clone, Debug)]
pub struct RerouteLineRequest {
    /// The object ID of the line to reroute. Only a line with a category indicating it is a "connector" can be rerouted. The start and end connections of the line must be on different page elements.
    pub object_id: Option<String>,
}

/// A single response from an update.
#[derive(Default, Clone, Debug)]
pub struct Response {
    /// The result of creating an image.
    pub create_image: Option<CreateImageResponse>,
    /// The result of creating a line.
    pub create_line: Option<CreateLineResponse>,
    /// The result of creating a shape.
    pub create_shape: Option<CreateShapeResponse>,
    /// The result of creating a Google Sheets chart.
    pub create_sheets_chart: Option<CreateSheetsChartResponse>,
    /// The result of creating a slide.
    pub create_slide: Option<CreateSlideResponse>,
    /// The result of creating a table.
    pub create_table: Option<CreateTableResponse>,
    /// The result of creating a video.
    pub create_video: Option<CreateVideoResponse>,
    /// The result of duplicating an object.
    pub duplicate_object: Option<DuplicateObjectResponse>,
    /// The result of grouping objects.
    pub group_objects: Option<GroupObjectsResponse>,
    /// The result of replacing all shapes matching some criteria with an image.
    pub replace_all_shapes_with_image: Option<ReplaceAllShapesWithImageResponse>,
    /// The result of replacing all shapes matching some criteria with a Google Sheets chart.
    pub replace_all_shapes_with_sheets_chart: Option<ReplaceAllShapesWithSheetsChartResponse>,
    /// The result of replacing text.
    pub replace_all_text: Option<ReplaceAllTextResponse>,
}

/// A criteria that matches a specific string of text in a shape or table.
#[derive(Default, Clone, Debug)]
pub struct SubstringMatchCriteria {
    /// Indicates whether the search should respect case: - `True`: the search is case sensitive. - `False`: the search is case insensitive.
    pub match_case: Option<bool>,
    /// Optional. True if the find value should be treated as a regular expression. Any backslashes in the pattern should be escaped. - `True`: the search text is treated as a regular expressions. - `False`: the search text is treated as a substring for matching.
    pub search_by_regex: Option<bool>,
    /// The text to search for in the shape or table.
    pub text: Option<String>,
}

/// A location of a single table cell within a table.
#[derive(Default, Clone, Debug)]
pub struct TableCellLocation {
    /// The 0-based column index.
    pub column_index: Option<i32>,
    /// The 0-based row index.
    pub row_index: Option<i32>,
}

/// A table range represents a reference to a subset of a table. It's important to note that the cells specified by a table range do not necessarily form a rectangle. For example, let's say we have a 3 x 3 table where all the cells of the last row are merged together. The table looks like this: [ ] A table range with location = (0, 0), row span = 3 and column span = 2 specifies the following cells: x x [ x x x ]
#[derive(Default, Clone, Debug)]
pub struct TableRange {
    /// The column span of the table range.
    pub column_span: Option<i32>,
    /// The starting location of the table range.
    pub location: Option<TableCellLocation>,
    /// The row span of the table range.
    pub row_span: Option<i32>,
}

/// The thumbnail of a page.
#[derive(Default, Clone, Debug)]
pub struct Thumbnail {
    /// The content URL of the thumbnail image. The URL to the image has a default lifetime of 30 minutes. This URL is tagged with the account of the requester. Anyone with the URL effectively accesses the image as the original requester. Access to the image may be lost if the presentation's sharing settings change. The mime type of the thumbnail image is the same as specified in the `GetPageThumbnailRequest`.
    pub content_url: Option<String>,
    /// The positive height in pixels of the thumbnail image.
    pub height: Option<i32>,
    /// The positive width in pixels of the thumbnail image.
    pub width: Option<i32>,
}

/// Ungroups objects, such as groups.
#[derive(Default, Clone, Debug)]
pub struct UngroupObjectsRequest {
    /// The object IDs of the objects to ungroup. Only groups that are not inside other groups can be ungrouped. All the groups should be on the same page. The group itself is deleted. The visual sizes and positions of all the children are preserved.
    pub object_ids: Option<Vec<String>>,
}

/// Unmerges cells in a Table.
#[derive(Default, Clone, Debug)]
pub struct UnmergeTableCellsRequest {
    /// The object ID of the table.
    pub object_id: Option<String>,
    /// The table range specifying which cells of the table to unmerge. All merged cells in this range will be unmerged, and cells that are already unmerged will not be affected. If the range has no merged cells, the request will do nothing. If there is text in any of the merged cells, the text will remain in the upper-left ("head") cell of the resulting block of unmerged cells.
    pub table_range: Option<TableRange>,
}

/// Updates the category of a line.
#[derive(Default, Clone, Debug)]
pub struct UpdateLineCategoryRequest {
    /// The line category to update to. The exact line type is determined based on the category to update to and how it's routed to connect to other page elements.
    pub line_category: Option<String>,
    /// The object ID of the line the update is applied to. Only a line with a category indicating it is a "connector" can be updated. The line may be rerouted after updating its category.
    pub object_id: Option<String>,
}

/// Updates the alt text title and/or description of a page element.
#[derive(Default, Clone, Debug)]
pub struct UpdatePageElementAltTextRequest {
    /// The updated alt text description of the page element. If unset the existing value will be maintained. The description is exposed to screen readers and other accessibility interfaces. Only use human readable values related to the content of the page element.
    pub description: Option<String>,
    /// The object ID of the page element the updates are applied to.
    pub object_id: Option<String>,
    /// The updated alt text title of the page element. If unset the existing value will be maintained. The title is exposed to screen readers and other accessibility interfaces. Only use human readable values related to the content of the page element.
    pub title: Option<String>,
}

/// Updates the Z-order of page elements. Z-order is an ordering of the elements on the page from back to front. The page element in the front may cover the elements that are behind it.
#[derive(Default, Clone, Debug)]
pub struct UpdatePageElementsZOrderRequest {
    /// The Z-order operation to apply on the page elements. When applying the operation on multiple page elements, the relative Z-orders within these page elements before the operation is maintained.
    pub operation: Option<String>,
    /// The object IDs of the page elements to update. All the page elements must be on the same page and must not be grouped.
    pub page_element_object_ids: Option<Vec<String>>,
}

/// Updates the position of slides in the presentation.
#[derive(Default, Clone, Debug)]
pub struct UpdateSlidesPositionRequest {
    /// The index where the slides should be inserted, based on the slide arrangement before the move takes place. Must be between zero and the number of slides in the presentation, inclusive.
    pub insertion_index: Option<i32>,
    /// The IDs of the slides in the presentation that should be moved. The slides in this list must be in existing presentation order, without duplicates.
    pub slide_object_ids: Option<Vec<String>>,
}

/// Represents a font family and weight used to style a TextRun.
#[derive(Default, Clone, Debug)]
pub struct WeightedFontFamily {
    /// The font family of the text. The font family can be any font from the Font menu in Slides or from [Google Fonts] (https://fonts.google.com/). If the font name is unrecognized, the text is rendered in `Arial`.
    pub font_family: Option<String>,
    /// The rendered weight of the text. This field can have any value that is a multiple of `100` between `100` and `900`, inclusive. This range corresponds to the numerical values described in the CSS 2.1 Specification, [section 15.6](https://www.w3.org/TR/CSS21/fonts.html#font-boldness), with non-numerical values disallowed. Weights greater than or equal to `700` are considered bold, and weights less than `700`are not bold. The default value is `400` ("normal").
    pub weight: Option<i32>,
}

/// A PageElement kind representing word art.
#[derive(Default, Clone, Debug)]
pub struct WordArt {
    /// The text rendered as word art.
    pub rendered_text: Option<String>,
}

/// Provides control over how write requests are executed.
#[derive(Default, Clone, Debug)]
pub struct WriteControl {
    /// The revision ID of the presentation required for the write request. If specified and the required revision ID doesn't match the presentation's current revision ID, the request is not processed and returns a 400 bad request error. When a required revision ID is returned in a response, it indicates the revision ID of the document after the request was applied.
    pub required_revision_id: Option<String>,
}

} // verus!
