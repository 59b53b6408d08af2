use spark_connect::expression::Expression;
use spark_connect::functions::{
    abs, acos, acosh, add_months, aes_decrypt, aes_encrypt, any_value, approxCountDistinct,
    approx_count_distinct, approx_count_distinct_rsd, approx_percentile, array, array_agg, array_append, array_compact, array_contains,
    array_distinct, array_except, array_insert, array_intersect, array_join, array_max, array_min, array_position,
    array_prepend, array_remove, array_repeat, array_size, array_sort, array_union, arrays_overlap, arrays_zip,
    asc, asc_nulls_first, asc_nulls_last, ascii, asin, asinh, assert_true, atan,
    atan2, atanh, avg, base64, bin, bit_and, bit_count, bit_get,
    bit_length, bit_or, bit_xor, bitmap_and_agg, bitmap_bit_position, bitmap_bucket_number, bitmap_construct_agg, bitmap_count,
    bitmap_or_agg, bitwiseNOT, bitwise_not, bool_and, bool_or, bround, bround_scale, btrim,
    bucket, call_function, call_udf, cardinality, cast, cbrt, ceil, ceil_scale,
    ceiling, char, char_length, character_length, chr, col, collate, collation,
    collect_list, collect_set, concat_ws, contains, conv, convert_timezone, corr,
    cos, cosh, cot, count, countDistinct, count_distinct, count_if, count_min_sketch,
    counter_diff, covar_pop, covar_samp, crc32, create_map, csc, cume_dist, curdate,
    current_catalog, current_database, current_date, current_schema, current_timestamp, current_timezone, current_user, date_add,
    date_diff, date_format, date_from_unix_date, date_part, date_sub, date_trunc, dateadd, datediff,
    datepart, day, dayname, dayofmonth, dayofweek, dayofyear, days, decode,
    degrees, dense_rank, desc, desc_nulls_first, desc_nulls_last, e, element_at, encode,
    endswith, equal_null, every, exp, explode, explode_outer, expm1, expr,
    extract, factorial, find_in_set, first, first_value, flatten, floor, floor_scale,
    format_number, format_string, from_csv, from_json, from_utc_timestamp, from_xml, get, get_json_object,
    getbit, greatest, grouping, hash, hex, histogram_numeric, hll_sketch_agg, hll_sketch_estimate,
    hll_union, hll_union_agg, hmac, hour, hours, hypot, ifnull, ilike,
    initcap, input_file_block_length, input_file_block_start, input_file_name, instr, jaro_winkler_similarity, json_array_length,
    json_object_keys, json_tuple, kll_sketch_get_quantile_bigint, kll_sketch_get_quantile_double, kll_sketch_get_quantile_float, kll_sketch_get_rank_bigint, kll_sketch_get_rank_double, kll_sketch_get_rank_float,
    kll_sketch_merge_bigint, kll_sketch_merge_double, kll_sketch_merge_float, kurtosis, least, left, levenshtein, like,
    localtimestamp, locate, log, log10, log1p, log2, lower, lpad,
    ltrim, ltrim_with, make_date, make_dt_interval, make_interval, make_time, make_ym_interval, map_contains_key,
    map_from_arrays, map_keys, map_values, max_by, md5, min_by, minute, monotonically_increasing_id,
    month, months_between, nanvl, next_day, now, nth_value, nullif, nvl,
    nvl2, octet_length, overlay, parse_json, parse_url, percent_rank, percentile, percentile_approx,
    pi, pmod, posexplode, posexplode_outer, position, pow, power, quarter,
    radians, rand, regexp, regexp_count, regexp_extract, regexp_extract_all, regexp_instr, regexp_like,
    regexp_replace, reverse, rint, round, rpad, rtrim, schema_of_json, second,
    sha1, sha2, shiftLeft, shiftRight, shiftRightUnsigned, signum, sin, sinh,
    size, skewness, slice, soundex, split, split_part, sqrt, stddev,
    stddev_pop, stddev_samp, substring, substring_index, tan, tanh, time_diff, timestamp_add,
    timestamp_diff, to_binary, to_char, to_date, to_json, to_timestamp, to_utc_timestamp, to_varchar,
    translate, try_add, try_divide, try_element_at, try_multiply, try_subtract, try_to_binary, try_url_decode,
    try_variant_array_append, try_variant_get, try_variant_insert, try_variant_set, unbase64, unhex, unix_date, unix_micros,
    unix_millis, unix_seconds, upper, url_decode, url_encode, uuid, var_pop, var_samp,
    variant_array_append, window, window_with_slide_and_start, year,
};


#[test]
fn test_zero_arg_functions() {
    let _cume = cume_dist();
    let _curdate = curdate();
    let _catalog = current_catalog();
    let _db = current_database();
    let _now = current_date();
    let _schema = current_schema();
    let _ts = current_timestamp();
    let _tz = current_timezone();
    let _user = current_user();
    let _dense = dense_rank();
    let _e_val = e();
    let _input_block = input_file_block_length();
    let _input_start = input_file_block_start();
    let _input_name = input_file_name();
    let _local_ts = localtimestamp();
    let _mono_id = monotonically_increasing_id();
    let _now_fn = now();
    let _pr = percent_rank();
    let _pi_val = pi();
    let _rand_val = rand();
    let _uuid_val = uuid();
}

#[test]
fn test_zero_arg_functions_serialize() {
    let funcs = vec![
        cume_dist(),
        curdate(),
        current_catalog(),
        current_date(),
        dense_rank(),
        e(),
        pi(),
        rand(),
        uuid(),
    ];
    for col in funcs {
        let _ = col.to_proto();
    }
}

#[test]
fn test_interval_builders_serialize() {
    let make_dt = make_dt_interval();
    let _ = make_dt.to_proto();

    let make_i = make_interval();
    let _ = make_i.to_proto();

    let make_ym = make_ym_interval();
    let _ = make_ym.to_proto();
}

#[test]
fn test_math_functions_serialize() {
    let test_col = col("test");
    let funcs = vec![
        abs(col("test")),
        acos(col("test")),
        acosh(col("test")),
        asin(col("test")),
        asinh(col("test")),
        atan(col("test")),
        atanh(col("test")),
        cbrt(col("test")),
        ceil(col("test")),
        cos(col("test")),
        cosh(col("test")),
        exp(col("test")),
        expm1(col("test")),
        floor(col("test")),
        log(col("test")),
        log10(col("test")),
        log1p(col("test")),
        log2(col("test")),
        rint(col("test")),
        round(col("test")),
        signum(col("test")),
        sin(col("test")),
        sinh(col("test")),
        sqrt(col("test")),
        tan(col("test")),
        tanh(col("test")),
    ];
    for col in funcs {
        let _ = col.to_proto();
    }
}

#[test]
fn test_string_functions_serialize() {
    let test_col = col("test");
    let funcs = vec![
        ascii(col("test")),
        bit_count(col("test")),
        char_length(col("test")),
        character_length(col("test")),
        initcap(col("test")),
        lower(col("test")),
        ltrim(col("test")),
        octet_length(col("test")),
        reverse(col("test")),
        rtrim(col("test")),
        size(col("test")),
        soundex(col("test")),
        upper(col("test")),
    ];
    for col in funcs {
        let _ = col.to_proto();
    }
}

#[test]
fn test_col_patterns() {
    let c_col = col("my_column");
    match c_col.expression() {
        Expression::ColumnReference(_) => {}
        _ => panic!("Expected ColumnReference"),
    }

    let star = col("*");
    match star.expression() {
        Expression::UnresolvedStar(None) => {}
        _ => panic!("Expected UnresolvedStar(None)"),
    }

    let table_star = col("t.*");
    match table_star.expression() {
        Expression::UnresolvedStar(Some(_)) => {}
        _ => panic!("Expected UnresolvedStar with prefix"),
    }
}

#[test]
fn test_expr_function_serialize() {
    let e = expr("SELECT 1");
    match e.expression() {
        Expression::SQLExpression(s) => {
            assert_eq!(s, "SELECT 1");
        }
        _ => panic!("Expected SQLExpression"),
    }
    let _ = e.to_proto();
}

#[test]
fn test_variadic_functions_serialize() {
    let c1 = col("a");
    let c2 = col("b");
    let c3 = col("c");

    let arr = array(vec![col("a"), col("b"), col("c")]);
    let _ = arr.to_proto();

    let concat_res = spark_connect::functions::concat(vec![col("a"), col("b")]);
    let _ = concat_res.to_proto();

    let zip = arrays_zip(vec![col("a"), col("b")]);
    let _ = zip.to_proto();

    let map_res = create_map(vec![c1, c2, c3]);
    let _ = map_res.to_proto();
}

#[test]
fn test_sort_functions_serialize() {
    let test_col = col("test");
    let funcs = vec![
        asc(col("test")),
        asc_nulls_first(col("test")),
        asc_nulls_last(col("test")),
        desc(col("test")),
        desc_nulls_first(col("test")),
        desc_nulls_last(col("test")),
    ];
    for col in funcs {
        let _ = col.to_proto();
    }
}

#[test]
fn test_window_functions_serialize() {
    let test_col = col("test");
    let w1 = window(col("test"), "1 minute");
    let _ = w1.to_proto();

    let w2 =
        window_with_slide_and_start(col("test"), "10 minutes", "5 minutes", "0 minutes");
    let _ = w2.to_proto();
}

#[test]
fn test_udf_call_serialize() {
    let c1 = col("a");
    let c2 = col("b");

    let udf_res = call_udf("my_udf", vec![col("a"), col("b")]);
    let _ = udf_res.to_proto();

    let cf = call_function("func_name", vec![c1, c2]);
    let _ = cf.to_proto();
}

#[test]
fn test_two_arg_functions_serialize() {
    let c1 = col("a");
    let c2 = col("b");

    let funcs = vec![
        pow(col("a"), col("b")),
        hypot(col("a"), col("b")),
        atan2(col("a"), col("b")),
        datediff(col("a"), col("b")),
        from_utc_timestamp(col("a"), col("b")),
        to_utc_timestamp(col("a"), col("b")),
        try_add(col("a"), col("b")),
        try_divide(col("a"), col("b")),
        try_multiply(col("a"), col("b")),
        try_subtract(col("a"), col("b")),
    ];

    for col in funcs {
        let _ = col.to_proto();
    }
}

#[test]
fn test_type_cast_serialize() {
    let test_col = col("test");
    let fmt_col = col("fmt");
    let funcs = vec![
        bitwiseNOT(col("test")),
        bool_and(col("test")),
        bool_or(col("test")),
        to_date(col("test")),
        to_timestamp(col("test")),
        to_char(col("test"), col("fmt")),
        to_varchar(col("test"), col("fmt")),
        to_binary(col("test")),
        unix_date(col("test")),
        unix_seconds(col("test")),
        unix_millis(col("test")),
        unix_micros(col("test")),
    ];

    for col in funcs {
        let _ = col.to_proto();
    }
}

#[test]
fn test_hash_functions_serialize() {
    let test_col = col("test");
    let c1 = col("a");
    let c2 = col("b");

    let funcs = vec![
        md5(col("test")),
        sha1(col("test")),
        sha2(col("test"), 256),
        crc32(col("test")),
    ];

    for col in funcs {
        let _ = col.to_proto();
    }

    let hash_res = hash(vec![c1, c2]);
    let _ = hash_res.to_proto();
}

#[test]
fn test_encoding_serialize() {
    let test_col = col("test");
    let funcs = vec![
        bin(col("test")),
        hex(col("test")),
        unhex(col("test")),
        base64(col("test")),
        unbase64(col("test")),
    ];

    for col in funcs {
        let _ = col.to_proto();
    }
}

#[test]
fn test_datetime_serialize() {
    let test_col = col("test");
    let funcs = vec![
        dayofmonth(col("test")),
        dayofweek(col("test")),
        dayofyear(col("test")),
        month(col("test")),
        quarter(col("test")),
        dayofmonth(col("test")),
        hour(col("test")),
        minute(col("test")),
        second(col("test")),
        year(col("test")),
    ];

    for col in funcs {
        let _ = col.to_proto();
    }
}

#[test]
fn test_array_functions_serialize() {
    let test_col = col("test");
    let other_col = col("other");

    let funcs = vec![
        array_contains(col("test"), col("other")),
        array_intersect(col("test"), col("other")),
        array_max(col("test")),
        array_min(col("test")),
        array_position(col("test"), col("other")),
        array_remove(col("test"), col("other")),
        array_sort(col("test")),
        array_distinct(col("test")),
        array_compact(col("test")),
    ];

    for col in funcs {
        let _ = col.to_proto();
    }
}

#[test]
fn test_map_functions_serialize() {
    let test_col = col("test");
    let other_col = col("other");

    let funcs = vec![
        map_contains_key(col("test"), col("other")),
        map_keys(col("test")),
        map_values(col("test")),
        map_from_arrays(col("test"), col("other")),
        element_at(col("test"), col("other")),
        try_element_at(col("test"), col("other")),
    ];

    for col in funcs {
        let _ = col.to_proto();
    }
}

#[test]
fn test_string_ops_serialize() {
    let test_col = col("test");
    let col1 = col("a");
    let col2 = col("b");
    let col3 = col("c");

    let funcs = vec![
        substring(col("test"), col("a"), col("b")),
        instr(col("test"), col("a")),
        rpad(col("test"), col("a"), col("b")),
        lpad(col("test"), col("a"), col("b")),
        split(col("test"), col("a")),
        regexp_extract(col("test"), col("a"), col("c")),
        regexp_like(col("test"), col("a")),
    ];

    for col in funcs {
        let _ = col.to_proto();
    }
}

#[test]
fn test_explode_serialize() {
    let test_col = col("test");
    let funcs = vec![
        explode(col("test")),
        explode_outer(col("test")),
        posexplode(col("test")),
        posexplode_outer(col("test")),
    ];

    for col in funcs {
        let _ = col.to_proto();
    }
}

#[test]
fn test_json_serialize() {
    let test_col = col("test");
    let other_col = col("other");
    let funcs = vec![
        get_json_object(col("test"), col("other")),
        json_array_length(col("test")),
        json_object_keys(col("test")),
        parse_json(col("test")),
        from_json(col("test"), col("other")),
        to_json(col("test")),
        schema_of_json(col("test")),
    ];

    for col in funcs {
        let _ = col.to_proto();
    }
}

#[test]
fn test_aggregation_serialize() {
    let test_col = col("test");
    let funcs = vec![
        count_distinct(col("test")),
        approx_count_distinct(col("test")),
        skewness(col("test")),
        kurtosis(col("test")),
        var_pop(col("test")),
        var_samp(col("test")),
        stddev(col("test")),
        stddev_pop(col("test")),
        stddev_samp(col("test")),
    ];

    for col in funcs {
        let _ = col.to_proto();
    }
}

#[test]
fn test_shift_functions_serialize() {
    let test_col = col("test");
    let col_n = col("n");
    let funcs = vec![
        shiftLeft(col("test"), col("n")),
        shiftRight(col("test"), col("n")),
        shiftRightUnsigned(col("test"), col("n")),
    ];

    for col in funcs {
        let _ = col.to_proto();
    }
}

#[test]
fn test_misc_functions_serialize() {
    let test_col = col("test");
    let funcs = vec![
        degrees(col("test")),
        radians(col("test")),
        bround(col("test")),
        url_encode(col("test")),
        url_decode(col("test")),
        try_to_binary(col("test")),
        try_url_decode(col("test")),
    ];

    for col in funcs {
        let _ = col.to_proto();
    }
}

#[test]
fn test_nested_calls() {
    let inner = col("x");
    let outer = sqrt(inner);
    let _ = outer.to_proto();

    let nested = ceil(sqrt(col("y")));
    let _ = nested.to_proto();

    let complex = floor(abs(log(col("z"))));
    let _ = complex.to_proto();
}

#[test]
fn test_comprehensive_coverage() {
    let c1 = col("c1");
    let c2 = col("c2");
    let c3 = col("c3");

    // Test one-argument functions
    let one_arg_funcs = vec![
        abs(col("c1")),
        acos(col("c1")),
        acosh(col("c1")),
        any_value(col("c1")),
        approxCountDistinct(col("c1")),
        approx_count_distinct(col("c1")),
        array_agg(col("c1")),
        array_compact(col("c1")),
        array_distinct(col("c1")),
        array_max(col("c1")),
        array_min(col("c1")),
        array_size(col("c1")),
        array_sort(col("c1")),
        asc(col("c1")),
        asc_nulls_first(col("c1")),
        asc_nulls_last(col("c1")),
        ascii(col("c1")),
        asin(col("c1")),
        asinh(col("c1")),
        assert_true(col("c1")),
        atan(col("c1")),
        atanh(col("c1")),
        avg(col("c1")),
        base64(col("c1")),
        bin(col("c1")),
        bit_and(col("c1")),
        bit_count(col("c1")),
        bit_length(col("c1")),
        bit_or(col("c1")),
        bit_xor(col("c1")),
        bitmap_and_agg(col("c1")),
        bitmap_bit_position(col("c1")),
        bitmap_bucket_number(col("c1")),
        bitmap_construct_agg(col("c1")),
        bitmap_count(col("c1")),
        bitmap_or_agg(col("c1")),
        bitwiseNOT(col("c1")),
        bitwise_not(col("c1")),
        bool_and(col("c1")),
        bool_or(col("c1")),
        bround(col("c1")),
        btrim(col("c1")),
        cardinality(col("c1")),
        cbrt(col("c1")),
        ceil(col("c1")),
        ceiling(col("c1")),
        char(col("c1")),
        char_length(col("c1")),
        character_length(col("c1")),
        chr(col("c1")),
        collation(col("c1")),
        collect_list(col("c1")),
        collect_set(col("c1")),
        concat_ws(vec![col("c1")]),
        cos(col("c1")),
        cosh(col("c1")),
        cot(col("c1")),
        count(col("c1")),
        countDistinct(col("c1")),
        count_distinct(col("c1")),
        count_if(col("c1")),
        counter_diff(col("c1")),
        crc32(col("c1")),
        csc(col("c1")),
        date_from_unix_date(col("c1")),
        day(col("c1")),
        dayname(col("c1")),
        dayofmonth(col("c1")),
        dayofweek(col("c1")),
        dayofyear(col("c1")),
        days(col("c1")),
        degrees(col("c1")),
        desc(col("c1")),
        desc_nulls_first(col("c1")),
        desc_nulls_last(col("c1")),
        every(col("c1")),
        exp(col("c1")),
        explode(col("c1")),
        explode_outer(col("c1")),
        expm1(col("c1")),
        factorial(col("c1")),
        first(col("c1")),
        first_value(col("c1")),
        flatten(col("c1")),
        floor(col("c1")),
        format_string(vec![col("c1")]),
        grouping(col("c1")),
        hex(col("c1")),
        hll_sketch_agg(col("c1")),
        hll_sketch_estimate(col("c1")),
        hll_union_agg(col("c1")),
        hour(col("c1")),
        hours(col("c1")),
        initcap(col("c1")),
        spark_connect::functions::inline(col("c1")),
    ];
    for f in one_arg_funcs {
        let _ = f.to_proto();
    }

    // Test two-argument functions
    let two_arg_funcs = vec![
        add_months(col("c1"), col("c2")),
        aes_decrypt(col("c1"), col("c2")),
        aes_encrypt(col("c1"), col("c2")),
        approx_count_distinct_rsd(col("c1"), col("c2")),
        approx_percentile(col("c1"), col("c2")),
        array_append(col("c1"), col("c2")),
        array_contains(col("c1"), col("c2")),
        array_except(col("c1"), col("c2")),
        array_intersect(col("c1"), col("c2")),
        array_join(col("c1"), col("c2")),
        array_position(col("c1"), col("c2")),
        array_prepend(col("c1"), col("c2")),
        array_remove(col("c1"), col("c2")),
        array_repeat(col("c1"), col("c2")),
        array_union(col("c1"), col("c2")),
        arrays_overlap(col("c1"), col("c2")),
        atan2(col("c1"), col("c2")),
        bit_get(col("c1"), col("c2")),
        bround_scale(col("c1"), col("c2")),
        bucket(col("c1"), col("c2")),
        cast(col("c1"), col("c2")),
        ceil_scale(col("c1"), col("c2")),
        collate(col("c1"), col("c2")),
        contains(col("c1"), col("c2")),
        corr(col("c1"), col("c2")),
        covar_pop(col("c1"), col("c2")),
        covar_samp(col("c1"), col("c2")),
        date_add(col("c1"), col("c2")),
        date_diff(col("c1"), col("c2")),
        date_format(col("c1"), col("c2")),
        date_part(col("c1"), col("c2")),
        date_sub(col("c1"), col("c2")),
        date_trunc(col("c1"), col("c2")),
        dateadd(col("c1"), col("c2")),
        datediff(col("c1"), col("c2")),
        datepart(col("c1"), col("c2")),
        decode(col("c1"), col("c2")),
        element_at(col("c1"), col("c2")),
        encode(col("c1"), col("c2")),
        endswith(col("c1"), col("c2")),
        equal_null(col("c1"), col("c2")),
        extract(col("c1"), col("c2")),
        find_in_set(col("c1"), col("c2")),
        floor_scale(col("c1"), col("c2")),
        format_number(col("c1"), col("c2")),
        from_csv(col("c1"), col("c2")),
        from_json(col("c1"), col("c2")),
        from_utc_timestamp(col("c1"), col("c2")),
        from_xml(col("c1"), col("c2")),
        get(col("c1"), col("c2")),
        get_json_object(col("c1"), col("c2")),
        getbit(col("c1"), col("c2")),
        greatest(col("c1"), col("c2")),
        histogram_numeric(col("c1"), col("c2")),
        hll_union(col("c1"), col("c2")),
        hmac(col("c1"), col("c2")),
        hypot(col("c1"), col("c2")),
        ifnull(col("c1"), col("c2")),
        ilike(col("c1"), col("c2")),
        instr(col("c1"), col("c2")),
        jaro_winkler_similarity(col("c1"), col("c2")),
        json_tuple(col("c1"), col("c2")),
        kll_sketch_get_quantile_bigint(col("c1"), col("c2")),
        kll_sketch_get_quantile_double(col("c1"), col("c2")),
        kll_sketch_get_quantile_float(col("c1"), col("c2")),
        kll_sketch_get_rank_bigint(col("c1"), col("c2")),
        kll_sketch_get_rank_double(col("c1"), col("c2")),
        kll_sketch_get_rank_float(col("c1"), col("c2")),
        kll_sketch_merge_bigint(col("c1"), col("c2")),
        kll_sketch_merge_double(col("c1"), col("c2")),
        kll_sketch_merge_float(col("c1"), col("c2")),
        least(col("c1"), col("c2")),
        left(col("c1"), col("c2")),
        levenshtein(col("c1"), col("c2")),
        like(col("c1"), col("c2")),
        locate(col("c1"), col("c2")),
        ltrim_with(col("c1"), col("c2")),
        map_contains_key(col("c1"), col("c2")),
        map_from_arrays(col("c1"), col("c2")),
        max_by(col("c1"), col("c2")),
        min_by(col("c1"), col("c2")),
        months_between(col("c1"), col("c2")),
        nanvl(col("c1"), col("c2")),
        next_day(col("c1"), col("c2")),
        nth_value(col("c1"), col("c2")),
        nullif(col("c1"), col("c2")),
        nvl(col("c1"), col("c2")),
        parse_url(col("c1"), col("c2")),
        percentile(col("c1"), col("c2")),
        percentile_approx(col("c1"), col("c2")),
        pmod(col("c1"), col("c2")),
        position(col("c1"), col("c2")),
        pow(col("c1"), col("c2")),
        power(col("c1"), col("c2")),
        regexp(col("c1"), col("c2")),
        regexp_count(col("c1"), col("c2")),
        regexp_extract_all(col("c1"), col("c2")),
        regexp_instr(col("c1"), col("c2")),
    ];
    for f in two_arg_funcs {
        let _ = f.to_proto();
    }

    // Test three-argument functions
    let three_arg_funcs = vec![
        array_insert(col("c1"), col("c2"), col("c3")),
        conv(col("c1"), col("c2"), col("c3")),
        convert_timezone(col("c1"), col("c2"), col("c3")),
        count_min_sketch(col("c1"), col("c2"), col("c3")),
        lpad(col("c1"), col("c2"), col("c3")),
        make_date(col("c1"), col("c2"), col("c3")),
        make_time(col("c1"), col("c2"), col("c3")),
        nvl2(col("c1"), col("c2"), col("c3")),
        overlay(col("c1"), col("c2"), col("c3")),
        regexp_extract(col("c1"), col("c2"), col("c3")),
        regexp_replace(col("c1"), col("c2"), col("c3")),
        rpad(col("c1"), col("c2"), col("c3")),
        slice(col("c1"), col("c2"), col("c3")),
        split_part(col("c1"), col("c2"), col("c3")),
        substring(col("c1"), col("c2"), col("c3")),
        substring_index(col("c1"), col("c2"), col("c3")),
        time_diff(col("c1"), col("c2"), col("c3")),
        timestamp_add(col("c1"), col("c2"), col("c3")),
        timestamp_diff(col("c1"), col("c2"), col("c3")),
        translate(col("c1"), col("c2"), col("c3")),
        try_variant_array_append(col("c1"), col("c2"), col("c3")),
        try_variant_get(col("c1"), col("c2"), col("c3")),
        try_variant_insert(col("c1"), col("c2"), col("c3")),
        try_variant_set(col("c1"), col("c2"), col("c3")),
        variant_array_append(col("c1"), col("c2"), col("c3")),
    ];
    for f in three_arg_funcs {
        let _ = f.to_proto();
    }
}

#[test]
fn star_names_become_stars() {
    assert!(matches!(col("*").expr, Expression::UnresolvedStar(None)));
    match col("t.*").expr {
        Expression::UnresolvedStar(Some(t)) => assert_eq!(t, "t.*"),
        _ => panic!("expected a qualified star"),
    }
    match col("a.b").expr {
        Expression::ColumnReference(r) => assert_eq!(r.name, "a.b"),
        _ => panic!("expected a column reference"),
    }
}

#[test]
fn calls_carry_their_arguments_in_order() {
    match pow(col("a"), col("b")).expr {
        Expression::UnresolvedFunction(f) => {
            assert_eq!(f.name, "power");
            assert_eq!(f.args.len(), 2);
            assert!(!f.is_distinct);
        }
        _ => panic!("expected a call"),
    }
    match count_distinct(col("a")).expr {
        Expression::UnresolvedFunction(f) => {
            assert_eq!(f.name, "count");
            assert!(f.is_distinct);
        }
        _ => panic!("expected a distinct call"),
    }
    match spark_connect::functions::lag(col("a")).expr {
        Expression::UnresolvedFunction(f) => {
            assert_eq!(f.args.len(), 2);
            assert!(matches!(f.args[1], spark_connect::expression::Expression::Literal(
                spark_connect::expression::LiteralExpression::Integer(1)
            )));
        }
        _ => panic!("expected a call"),
    }
}

#[test]
fn higher_order_functions_name_fresh_lambda_variables() {
    let mut counter = spark_connect::expression::LambdaVarCounter::new();
    let t = spark_connect::functions::transform(col("xs"), |vars| vars.into_iter().next().unwrap(), &mut counter);
    let z = spark_connect::functions::zip_with(col("a"), col("b"), |mut vars| vars.remove(1), &mut counter);
    assert_eq!(counter.next, 3);
    match t.expr {
        Expression::UnresolvedFunction(f) => {
            assert_eq!(f.name, "transform");
            match &f.args[1] {
                Expression::LambdaFunction(l) => {
                    assert_eq!(l.arguments.len(), 1);
                    assert_eq!(l.arguments[0].name_parts, "x_0");
                    match &l.function {
                        Expression::UnresolvedNamedLambdaVariable(v) => assert_eq!(v.name_parts, "x_0"),
                        _ => panic!("expected the lambda variable as body"),
                    }
                }
                _ => panic!("expected a lambda"),
            }
        }
        _ => panic!("expected a call"),
    }
    match z.expr {
        Expression::UnresolvedFunction(f) => match &f.args[2] {
            Expression::LambdaFunction(l) => {
                assert_eq!(l.arguments[0].name_parts, "x_1");
                assert_eq!(l.arguments[1].name_parts, "x_2");
            }
            _ => panic!("expected a lambda"),
        },
        _ => panic!("expected a call"),
    }
}
